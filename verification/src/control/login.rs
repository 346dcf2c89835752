//! The browser login: the page it opens, the origin its callback admits,
//! and the callback's replies. URLs are handled by the `url` crate and
//! passed around as their serialization.
use vstd::prelude::*;
use crate::http::fields_view;
use crate::text::{decimal, decimal_string, owned};

verus! {

/// The serialization of the absolute URL that `url::Url::parse` makes of
/// `input`, or the text of its `ParseError`.
pub uninterp spec fn url_parsed(input: Seq<char>) -> Result<Seq<char>, Seq<char>>;

/// What `Url::join` gives for the URL serialized as `base` and `input`: the
/// serialization of the joined URL, or the text of the `ParseError`.
pub uninterp spec fn url_joined(base: Seq<char>, input: Seq<char>) -> Result<Seq<char>, Seq<char>>;

/// `Url::origin().ascii_serialization()` of the URL serialized as `url`,
/// or the text of the `ParseError` where `url` is no URL.
pub uninterp spec fn url_origin(url: Seq<char>) -> Result<Seq<char>, Seq<char>>;

/// The URL serialized as `url` with the pair `name=value` appended to its
/// query by `query_pairs_mut().append_pair`, or the text of the
/// `ParseError` where `url` is no URL.
pub uninterp spec fn url_with_pair(url: Seq<char>, name: Seq<char>, value: Seq<char>) -> Result<
    Seq<char>,
    Seq<char>,
>;

/// A result of strings, by view.
pub open spec fn text_result(r: Result<String, String>) -> Result<Seq<char>, Seq<char>> {
    match r {
        Ok(s) => Ok(s@),
        Err(e) => Err(e@),
    }
}

/// `url::Url::parse`, its URL serialized back with `String::from` and its
/// `ParseError` turned into text: claimed to give `url_parsed(input)`.
#[verifier::external_body]
pub(crate) fn parse_url(input: &str) -> (r: Result<String, String>)
    ensures
        text_result(r) == url_parsed(input@),
{
    match url::Url::parse(input) {
        Ok(u) => Ok(u.into()),
        Err(e) => Err(e.to_string()),
    }
}

/// `Url::join` on the URL serialized as `base` (read back with
/// `Url::parse`), serialized back, an error as its text: claimed to give
/// `url_joined(base, input)`.
#[verifier::external_body]
fn join_url(base: &str, input: &str) -> (r: Result<String, String>)
    ensures
        text_result(r) == url_joined(base@, input@),
{
    match url::Url::parse(base) {
        Ok(u) => match u.join(input) {
            Ok(j) => Ok(j.into()),
            Err(e) => Err(e.to_string()),
        },
        Err(e) => Err(e.to_string()),
    }
}

/// `Url::origin().ascii_serialization()` of the URL serialized as `url`
/// (read back with `Url::parse`), an error as its text: claimed to give
/// `url_origin(url)`.
#[verifier::external_body]
fn origin_of(url: &str) -> (r: Result<String, String>)
    ensures
        text_result(r) == url_origin(url@),
{
    match url::Url::parse(url) {
        Ok(u) => Ok(u.origin().ascii_serialization()),
        Err(e) => Err(e.to_string()),
    }
}

/// `query_pairs_mut().append_pair(name, value)` on the URL serialized as
/// `url` (read back with `Url::parse`), serialized back, an error as its
/// text: claimed to give `url_with_pair(url, name, value)`.
#[verifier::external_body]
pub(crate) fn append_query_pair(url: &str, name: &str, value: &str) -> (r: Result<String, String>)
    ensures
        text_result(r) == url_with_pair(url@, name@, value@),
{
    match url::Url::parse(url) {
        Ok(mut u) => {
            u.query_pairs_mut().append_pair(name, value);
            Ok(u.into())
        },
        Err(e) => Err(e.to_string()),
    }
}

/// The path of the login redirect page, joined to the login URL.
pub const LOGIN_REDIRECT_PATH: &'static str = "/space/devbridge/redirect";

/// What a browser login opens, and the origin its callback admits.
#[derive(Debug, Clone)]
pub struct LoginPage {
    /// The login page, with `origin=devbridge`, the language and the
    /// callback port in its query.
    pub url: String,
    /// The ASCII origin of the login URL, sent in
    /// `Access-Control-Allow-Origin`.
    pub allow_origin: String,
}

/// The page of `login_url`: its redirect path with the three query pairs,
/// or the first URL error met.
pub open spec fn login_page_spec(login_url: Seq<char>, language: Seq<char>, port: u16) -> Result<
    (Seq<char>, Seq<char>),
    Seq<char>,
> {
    match url_parsed(login_url) {
        Err(e) => Err(e),
        Ok(parsed) => match url_origin(parsed) {
            Err(e) => Err(e),
            Ok(origin) => match url_joined(parsed, LOGIN_REDIRECT_PATH@) {
                Err(e) => Err(e),
                Ok(page) => match url_with_pair(page, "origin"@, "devbridge"@) {
                    Err(e) => Err(e),
                    Ok(a) => match url_with_pair(a, "language"@, language) {
                        Err(e) => Err(e),
                        Ok(b) => match url_with_pair(b, "callback"@, decimal(port as nat)) {
                            Err(e) => Err(e),
                            Ok(c) => Ok((c, origin)),
                        },
                    },
                },
            },
        },
    }
}

/// The login page to open for a callback listening on `port`, and the
/// origin the callback admits; a URL error is given as its text.
pub fn login_page(login_url: &str, language: &str, port: u16) -> (r: Result<LoginPage, String>)
    ensures
        match login_page_spec(login_url@, language@, port) {
            Ok((u, o)) => r matches Ok(p) && p.url@ == u && p.allow_origin@ == o,
            Err(e) => r matches Err(m) && m@ == e,
        },
{
    let parsed = parse_url(login_url)?;
    let allow_origin = origin_of(parsed.as_str())?;
    let page = join_url(parsed.as_str(), LOGIN_REDIRECT_PATH)?;
    let a = append_query_pair(page.as_str(), "origin", "devbridge")?;
    let b = append_query_pair(a.as_str(), "language", language)?;
    let port_text = decimal_string(port as u64);
    let c = append_query_pair(b.as_str(), "callback", port_text.as_str())?;
    Ok(LoginPage { url: c, allow_origin })
}

/// A reply of the login callback server.
#[derive(Debug, Clone)]
pub struct CallbackReply {
    pub status: u16,
    pub body: String,
    /// Header names and values, in order.
    pub headers: Vec<(String, String)>,
}

/// The CORS headers of every reply: the login origin, `POST, OPTIONS` and
/// `content-type`.
pub open spec fn cors_headers(origin: Seq<char>) -> Seq<(Seq<char>, Seq<char>)> {
    seq![
        ("access-control-allow-origin"@, origin),
        ("access-control-allow-methods"@, "POST, OPTIONS"@),
        ("access-control-allow-headers"@, "content-type"@),
    ]
}

fn cors(origin: &str) -> (r: Vec<(String, String)>)
    ensures
        fields_view(r@) == cors_headers(origin@),
{
    let mut h: Vec<(String, String)> = Vec::new();
    h.push((owned("access-control-allow-origin"), owned(origin)));
    h.push((owned("access-control-allow-methods"), owned("POST, OPTIONS")));
    h.push((owned("access-control-allow-headers"), owned("content-type")));
    assert(fields_view(h@) =~= cors_headers(origin@));
    h
}

/// The reply to the login page's posted credentials.
pub fn callback_reply(allow_origin: &str) -> (r: CallbackReply)
    ensures
        r.status == 200,
        r.body@ == "DevBridge login completed. You can close this page."@,
        fields_view(r.headers@) == cors_headers(allow_origin@),
{
    CallbackReply {
        status: 200,
        body: owned("DevBridge login completed. You can close this page."),
        headers: cors(allow_origin),
    }
}

/// The reply to a CORS preflight: no content.
pub fn preflight_reply(allow_origin: &str) -> (r: CallbackReply)
    ensures
        r.status == 204,
        r.body@.len() == 0,
        fields_view(r.headers@) == cors_headers(allow_origin@),
{
    CallbackReply { status: 204, body: String::new(), headers: cors(allow_origin) }
}

} // verus!
