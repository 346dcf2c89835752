//! Credentials of the command-line front end: which API key is used, how it
//! is kept in the system keyring, how a key is checked, and the local HTTP
//! callback that a browser login posts its result to.
use vstd::prelude::*;
use vstd::utf8::{decode_utf8, encode_utf8, encode_utf8_decode_utf8, encode_utf8_valid_utf8, valid_utf8};
use crate::cli::config::{
    clear_credentials, config_credential, opt_view, without_credentials, with_credential,
    AppConfig, ConfigError, Credential, UserInfo, DEFAULT_SERVER_DOMAIN,
};
use crate::cli::i18n::{pick, Lang};
use crate::cli::config::config_error_text;
use crate::control::login::{append_query_pair, parse_url, text_result, url_parsed, url_with_pair, LOGIN_REDIRECT_PATH};
use crate::codec::{base64_decode, base64_decoded, base64_encode, base64_encoded, utf8_lossy, utf8_lossy_string, utf8_string};
use crate::text::{
    decimal, digits_value, eq_ignore_ascii_case, has_prefix, index_of, parse_usize_spec, strip_cr,
    trim_ws, ascii_lower, chars_of, find_char, owned, push_decimal, push_str, trim_end_char,
    trim_end_matches_char, trim_range, parse_usize_range, to_ascii_lower, decimal_string,
};

verus! {

/// The keyring service under which the key is kept.
pub const CREDENTIAL_SERVICE: &'static str = "HWCLOUD";

/// The keyring user under which the key is kept.
pub const CREDENTIAL_USER: &'static str = "Credentials";

/// The login site.
pub const LOGIN_URL: &'static str = "https://devstation.ulanqab.huawei.com";

/// The error code of a successful browser login.
pub const LOGIN_SUCCESS_CODE: &'static str = "0000";

/// Size of the buffer that one callback request is read into.
pub const CALLBACK_BUFFER_SIZE: usize = 8192;

/// Largest callback body accepted.
pub const MAX_CALLBACK_BODY: usize = 4096;

/// Why authentication failed.
#[derive(Debug, Clone)]
pub enum AuthError {
    /// No key anywhere: the stored key expired or was never stored.
    Expired,
    /// The configuration could not be read.
    Config(ConfigError),
    /// The key is empty, or the API answered `401`.
    InvalidKey,
    /// The key check answered another status, with this body.
    UnexpectedStatus { status: u16, body: String },
}

/// The key the keyring entry holds: its Base64 text decoded, as UTF-8, if
/// not empty.
pub open spec fn keyring_key(blob: Option<Seq<char>>) -> Option<Seq<char>> {
    match blob {
        None => None,
        Some(b) => match base64_decoded(b) {
            None => None,
            Some(bytes) => if valid_utf8(bytes) && decode_utf8(bytes).len() > 0 {
                Some(decode_utf8(bytes))
            } else {
                None
            },
        },
    }
}

/// The key that `read_api_key` picks, in order: a non-empty override, a
/// non-empty `HW_API_KEY`, a non-empty `DEVBRIDGE_API_KEY`, the keyring,
/// the non-empty key in the configuration.
pub open spec fn read_key_spec(
    override_key: Option<Seq<char>>,
    hw_key: Option<Seq<char>>,
    devbridge_key: Option<Seq<char>>,
    keyring_blob: Option<Seq<char>>,
    loaded: Result<AppConfig, ConfigError>,
) -> Option<Seq<char>> {
    if override_key is Some && override_key.unwrap().len() > 0 {
        override_key
    } else if hw_key is Some && hw_key.unwrap().len() > 0 {
        hw_key
    } else if devbridge_key is Some && devbridge_key.unwrap().len() > 0 {
        devbridge_key
    } else if keyring_key(keyring_blob) is Some {
        keyring_key(keyring_blob)
    } else {
        match loaded {
            Ok(c) => match c.credentials {
                Some(cred) if cred.api_key@.len() > 0 => Some(cred.api_key@),
                _ => None,
            },
            Err(_) => None,
        }
    }
}

/// Law: the key sources are asked in order: a non-empty override wins over
/// everything; without one a non-empty `HW_API_KEY` wins over all the rest,
/// then a non-empty `DEVBRIDGE_API_KEY`, then the keyring, and the stored
/// key is used only when none of those gives one; an empty key is never
/// picked.
pub proof fn lemma_read_key_sources_in_order(
    override_key: Option<Seq<char>>,
    hw_key: Option<Seq<char>>,
    devbridge_key: Option<Seq<char>>,
    keyring_blob: Option<Seq<char>>,
    loaded: Result<AppConfig, ConfigError>,
)
    ensures
        ({
            let r = read_key_spec(override_key, hw_key, devbridge_key, keyring_blob, loaded);
            let no_override = override_key is None || override_key.unwrap().len() == 0;
            let no_hw = hw_key is None || hw_key.unwrap().len() == 0;
            let no_devbridge = devbridge_key is None || devbridge_key.unwrap().len() == 0;
            &&& (!no_override ==> r == override_key)
            &&& (no_override && !no_hw ==> r == hw_key)
            &&& (no_override && no_hw && !no_devbridge ==> r == devbridge_key)
            &&& (no_override && no_hw && no_devbridge && keyring_key(keyring_blob) is Some ==> r
                == keyring_key(keyring_blob))
            &&& (no_override && no_hw && no_devbridge && keyring_key(keyring_blob) is None && loaded is Ok
                && loaded.unwrap().credentials is Some && loaded.unwrap().credentials.unwrap().api_key@.len()
                > 0 ==> r == Some(loaded.unwrap().credentials.unwrap().api_key@))
            &&& (no_override && no_hw && no_devbridge && keyring_key(keyring_blob) is None && (loaded is Err
                || loaded.unwrap().credentials is None || loaded.unwrap().credentials.unwrap().api_key@.len()
                == 0) ==> r is None)
            &&& (r is Some ==> r.unwrap().len() > 0)
        }),
{
}

fn non_empty(value: Option<&str>) -> (r: Option<String>)
    ensures
        match r {
            Some(s) => value is Some && value.unwrap()@.len() > 0 && s@ == value.unwrap()@,
            None => value is None || value.unwrap()@.len() == 0,
        },
{
    match value {
        Some(v) => if v.unicode_len() != 0 {
            Some(owned(v))
        } else {
            None
        },
        None => None,
    }
}

/// `blob` is the keyring text that `keyring_blob` makes of the key `k`.
pub open spec fn keyring_holds(blob: Option<Seq<char>>, k: Seq<char>) -> bool {
    blob == Some(base64_encoded(encode_utf8(k)))
}

fn key_from_keyring(blob: Option<&str>) -> (r: Option<String>)
    ensures
        match r {
            Some(s) => keyring_key(opt_view(blob)) == Some(s@),
            None => keyring_key(opt_view(blob)) is None,
        },
        forall|k: Seq<char>|
            k.len() > 0 && #[trigger] keyring_holds(opt_view(blob), k) ==> r is Some && r.unwrap()@ == k,
{
    let b = match blob {
        Some(b) => b,
        None => return None,
    };
    let bytes = match base64_decode(b) {
        Some(v) => v,
        None => return None,
    };
    let key = match utf8_string(bytes) {
        Some(k) => k,
        None => {
            proof {
                assert forall|k: Seq<char>| k.len() > 0 && #[trigger] keyring_holds(opt_view(blob), k) implies false by {
                    encode_utf8_valid_utf8(k);
                }
            }
            return None;
        },
    };
    proof {
        assert forall|k: Seq<char>| k.len() > 0 && #[trigger] keyring_holds(opt_view(blob), k) implies key@ == k by {
            encode_utf8_valid_utf8(k);
            encode_utf8_decode_utf8(k);
        }
    }
    if key.as_str().unicode_len() == 0 {
        None
    } else {
        Some(key)
    }
}

/// The API key to use: a non-empty override, else non-empty `HW_API_KEY`,
/// else non-empty `DEVBRIDGE_API_KEY`, else the key in the system keyring
/// (`keyring_blob`, its stored Base64 text), else the key stored in the
/// configuration. A configuration load failure is passed on when the
/// configuration is needed.
pub fn read_api_key(
    override_key: Option<&str>,
    hw_key: Option<&str>,
    devbridge_key: Option<&str>,
    keyring_blob: Option<&str>,
    loaded: Result<AppConfig, ConfigError>,
) -> (r: Result<String, AuthError>)
    ensures
        match read_key_spec(
            opt_view(override_key),
            opt_view(hw_key),
            opt_view(devbridge_key),
            opt_view(keyring_blob),
            loaded,
        ) {
            Some(k) => r is Ok && r.unwrap()@ == k,
            None => match loaded {
                Err(e) => r == Err::<String, AuthError>(AuthError::Config(e)),
                Ok(_) => r == Err::<String, AuthError>(AuthError::Expired),
            },
        },
        forall|k: Seq<char>|
            k.len() > 0 && (override_key is None || override_key.unwrap()@.len() == 0) && (hw_key is None
                || hw_key.unwrap()@.len() == 0) && (devbridge_key is None || devbridge_key.unwrap()@.len()
                == 0) && #[trigger] keyring_holds(opt_view(keyring_blob), k) ==> r is Ok && r.unwrap()@ == k,
{
    if let Some(k) = non_empty(override_key) {
        return Ok(k);
    }
    if let Some(k) = non_empty(hw_key) {
        return Ok(k);
    }
    if let Some(k) = non_empty(devbridge_key) {
        return Ok(k);
    }
    if let Some(k) = key_from_keyring(keyring_blob) {
        return Ok(k);
    }
    let c = match loaded {
        Err(e) => return Err(AuthError::Config(e)),
        Ok(c) => c,
    };
    let (cred, _) = config_credential(&c);
    match cred {
        Some(v) => if v.api_key.as_str().unicode_len() != 0 {
            Ok(v.api_key)
        } else {
            Err(AuthError::Expired)
        },
        None => Err(AuthError::Expired),
    }
}

/// The user recorded in the configuration, if it could be read.
pub fn current_user_info(loaded: Result<AppConfig, ConfigError>) -> (r: Option<UserInfo>)
    ensures
        match loaded {
            Ok(c) => r == c.user_info,
            Err(_) => r is None,
        },
{
    match loaded {
        Ok(c) => config_credential(&c).1,
        Err(_) => None,
    }
}

/// The text the keyring keeps for a key: Base64 of its UTF-8 bytes.
pub fn keyring_blob(api_key: &str) -> (r: String)
    ensures
        r@ == base64_encoded(encode_utf8(api_key@)),
{
    base64_encode(api_key.as_bytes())
}

/// Records a login: the key is kept in the configuration only when the
/// keyring could not take it; the user is recorded.
pub fn store_credential(
    config: &mut AppConfig,
    api_key: &str,
    user_info: Option<UserInfo>,
    stored_in_keyring: bool,
)
    ensures
        stored_in_keyring ==> *final(config) == with_credential(*old(config), None, user_info),
        !stored_in_keyring ==> final(config).credentials is Some
            && final(config).credentials.unwrap().api_key@ == api_key@
            && final(config).user_info == user_info
            && final(config).default_tunnel_id == old(config).default_tunnel_id,
{
    let fallback = if stored_in_keyring {
        None
    } else {
        Some(Credential { api_key: owned(api_key) })
    };
    crate::cli::config::store_config_credential(config, fallback, user_info);
}

/// Forgets the key and user kept in the configuration (the keyring entry is
/// deleted beside it).
pub fn delete_credential(config: &mut AppConfig)
    ensures
        *final(config) == without_credentials(*old(config)),
{
    clear_credentials(config);
}

/// The URL of the key check for a server domain (or the default).
pub open spec fn verify_url_spec(base_override: Option<Seq<char>>) -> Seq<char> {
    trim_end_char(
        match base_override {
            Some(b) => b,
            None => DEFAULT_SERVER_DOMAIN@,
        },
        '/',
    ) + "/open-api-inner/v1/relay-controller/auth/check"@
}

/// The key check's URL; an empty key is rejected without asking.
pub fn verify_api_key(api_key: &str, base_override: Option<&str>) -> (r: Result<String, AuthError>)
    ensures
        api_key@.len() == 0 ==> r == Err::<String, AuthError>(AuthError::InvalidKey),
        api_key@.len() > 0 ==> r is Ok && r.unwrap()@ == verify_url_spec(opt_view(base_override)),
{
    if api_key.unicode_len() == 0 {
        return Err(AuthError::InvalidKey);
    }
    let base = match base_override {
        Some(b) => b,
        None => DEFAULT_SERVER_DOMAIN,
    };
    let mut url = trim_end_matches_char(base, '/');
    push_str(&mut url, "/open-api-inner/v1/relay-controller/auth/check");
    Ok(url)
}

/// The key check's verdict on a status and body: `204` accepts, `401`
/// rejects, anything else is unexpected.
pub fn verify_status(status: u16, body: &str) -> (r: Result<(), AuthError>)
    ensures
        status == 204 ==> r is Ok,
        status == 401 ==> r == Err::<(), AuthError>(AuthError::InvalidKey),
        status != 204 && status != 401 ==> (r matches Err(AuthError::UnexpectedStatus { status: s, body: b })
            && s == status && b@ == body@),
{
    if status == 204 {
        Ok(())
    } else if status == 401 {
        Err(AuthError::InvalidKey)
    } else {
        Err(AuthError::UnexpectedStatus { status, body: owned(body) })
    }
}

/// The key a login uses when one is given: the given key if not empty;
/// otherwise the browser login supplies one.
pub fn login_key(api_key: Option<String>) -> (r: Option<String>)
    ensures
        match api_key {
            Some(k) => if k@.len() > 0 {
                r == Some(k)
            } else {
                r is None
            },
            None => r is None,
        },
{
    match api_key {
        Some(k) => if k.as_str().unicode_len() != 0 {
            Some(k)
        } else {
            None
        },
        None => None,
    }
}

/// The login page's language: `zh-cn` for Chinese systems, else `en-us`.
pub fn login_language(system: Lang) -> (r: &'static str)
    ensures
        r@ == (if system == Lang::Zh {
            "zh-cn"@
        } else {
            "en-us"@
        }),
{
    if system == Lang::Zh {
        "zh-cn"
    } else {
        "en-us"
    }
}

// ---------------------------------------------------------------------
// The login callback
// ---------------------------------------------------------------------

/// The credentials that the login page posts.
#[derive(Debug, Clone)]
pub struct CallbackResponse {
    pub api_key: String,
    pub user_name: String,
    pub user_id: String,
}

/// The body that the login page posts.
#[derive(Debug, Clone)]
pub struct LoginEnvelope {
    pub error_code: String,
    pub error_msg: String,
    pub result: CallbackResponse,
}

/// Why a browser login failed.
#[derive(Debug, Clone)]
pub enum LoginFailure {
    /// The request could not be framed: no end of headers in the buffer.
    BadRequest,
    /// The login page reported an error.
    Rejected { error_code: String, error_msg: String },
    /// The login page sent no key.
    MissingApiKey,
}

/// What happens after a response is written.
#[derive(Debug, Clone)]
pub enum AfterResponse {
    /// Serve the next connection.
    NextConnection,
    /// The login fails.
    Fail(LoginFailure),
    /// The login succeeded with this key and user.
    LoggedIn { api_key: String, user_info: Option<UserInfo> },
}

/// What the callback server does next on a connection.
#[derive(Debug, Clone)]
pub enum CallbackAction {
    /// Read at most `max` more bytes and report them (none at end of
    /// stream).
    Read { max: usize },
    /// Parse the body as the login envelope and report it.
    ParseBody { bytes: Vec<u8> },
    /// Write the response `status` / `body`, then go on as `then` says.
    Respond { status: u16, body: String, then: AfterResponse },
    /// The login fails.
    Fail(LoginFailure),
}

/// Where reading one callback request stands.
#[derive(Debug, Clone, Copy, PartialEq, Eq, Structural)]
pub enum CallbackPhase {
    Headers,
    Body { header_end: usize, content_length: usize },
    Done,
}

/// One callback connection: the bytes received and the reading phase.
#[derive(Debug, Clone)]
pub struct CallbackConnection {
    pub raw: Vec<u8>,
    pub phase: CallbackPhase,
}

/// `raw[i..i + 4]` is `\r\n\r\n`.
pub open spec fn terminator_at(raw: Seq<u8>, i: int) -> bool {
    0 <= i && i + 4 <= raw.len() && raw[i] == 13 && raw[i + 1] == 10 && raw[i + 2] == 13 && raw[i
        + 3] == 10
}

/// Index of the first `\r\n\r\n` at or after `from`.
pub open spec fn terminator_from(raw: Seq<u8>, from: nat) -> Option<nat>
    decreases raw.len() - from,
{
    if from + 4 > raw.len() {
        None
    } else if terminator_at(raw, from as int) {
        Some(from)
    } else {
        terminator_from(raw, from + 1)
    }
}

/// The end of the headers: just past the first `\r\n\r\n`.
pub open spec fn header_end_spec(raw: Seq<u8>) -> Option<nat> {
    match terminator_from(raw, 0) {
        Some(i) => Some(i + 4),
        None => None,
    }
}

/// The request line: the headers' first line, without its carriage return.
pub open spec fn request_line(headers: Seq<char>) -> Seq<char> {
    strip_cr(headers.take(index_of(headers, '\n') as int))
}

/// The `Content-Length` value a header line gives: a name equal to
/// `content-length` in any ASCII case before the first `:`, and a value
/// that parses as `usize` once trimmed.
pub open spec fn line_content_length(line: Seq<char>) -> Option<nat> {
    let j = index_of(line, ':');
    if j < line.len() && eq_ignore_ascii_case(line.take(j as int), "content-length"@) {
        parse_usize_spec(trim_ws(line.skip((j + 1) as int)))
    } else {
        None
    }
}

/// The first `Content-Length` that a header line gives.
pub open spec fn content_length_in(headers: Seq<char>) -> Option<nat>
    decreases headers.len(),
{
    if headers.len() == 0 {
        None
    } else {
        let k = index_of(headers, '\n');
        match line_content_length(strip_cr(headers.take(k as int))) {
            Some(v) => Some(v),
            None => if k < headers.len() {
                content_length_in(headers.skip((k + 1) as int))
            } else {
                None
            },
        }
    }
}

/// The body of the request: the bytes after the headers, at most
/// `content_length` of them.
pub open spec fn body_spec(raw: Seq<u8>, header_end: nat, content_length: nat) -> Seq<u8> {
    let avail = raw.len() - header_end;
    raw.subrange(header_end as int, header_end + if content_length <= avail {
        content_length as int
    } else {
        avail
    })
}

/// What to do once the headers of `raw` end at `header_end`: answer
/// preflights, refuse other methods than `POST` and bodies over 4096
/// bytes, else read the body.
pub open spec fn after_headers(raw: Seq<u8>, header_end: nat) -> (CallbackPhase, Option<(u16, Seq<char>)>) {
    let h = utf8_lossy(raw.take(header_end as int));
    let line = request_line(h);
    let cl = match content_length_in(h) {
        Some(v) => v,
        None => 0,
    };
    if has_prefix(line, "OPTIONS "@) {
        (CallbackPhase::Done, Some((200u16, "OK"@)))
    } else if !has_prefix(line, "POST "@) {
        (CallbackPhase::Done, Some((405u16, "method not allowed"@)))
    } else if cl > MAX_CALLBACK_BODY {
        (CallbackPhase::Done, Some((400u16, "bad request"@)))
    } else {
        (CallbackPhase::Body { header_end: header_end as usize, content_length: cl as usize }, None)
    }
}

/// Whether the body is complete: all of it arrived, or the buffer is full.
pub open spec fn body_complete(raw: Seq<u8>, header_end: nat, content_length: nat) -> bool {
    raw.len() >= header_end + content_length || raw.len() >= CALLBACK_BUFFER_SIZE
}

/// `a` is the response `(status, body)` followed by the next connection.
pub open spec fn is_response(a: CallbackAction, status: u16, body: Seq<char>) -> bool {
    a matches CallbackAction::Respond { status: s, body: b, then: AfterResponse::NextConnection }
        && s == status && b@ == body
}

/// `a` hands the body of `raw` over for parsing.
pub open spec fn is_body_delivery(a: CallbackAction, raw: Seq<u8>, header_end: nat, content_length: nat) -> bool {
    a matches CallbackAction::ParseBody { bytes } && bytes@ == body_spec(raw, header_end, content_length)
}

/// The connection is well formed: no more bytes than the buffer holds, and a
/// body phase whose headers end within the bytes received.
pub open spec fn connection_wf(c: CallbackConnection) -> bool {
    &&& c.raw@.len() <= CALLBACK_BUFFER_SIZE
    &&& c.phase matches CallbackPhase::Body { header_end, content_length } ==> header_end
        <= c.raw@.len() && content_length <= MAX_CALLBACK_BODY
}

fn find_terminator(raw: &Vec<u8>) -> (r: Option<usize>)
    ensures
        match terminator_from(raw@, 0) {
            Some(i) => r == Some(i as usize),
            None => r is None,
        },
{
    let mut i: usize = 0;
    while i < raw.len() && raw.len() - i >= 4
        invariant
            i <= raw@.len(),
            terminator_from(raw@, 0) == terminator_from(raw@, i as nat),
        decreases raw@.len() - i,
    {
        if raw[i] == 13 && raw[i + 1] == 10 && raw[i + 2] == 13 && raw[i + 3] == 10 {
            return Some(i);
        }
        i = i + 1;
    }
    None
}

fn copy_range(v: &Vec<u8>, from: usize, to: usize) -> (r: Vec<u8>)
    requires
        from <= to <= v@.len(),
    ensures
        r@ == v@.subrange(from as int, to as int),
{
    let mut out: Vec<u8> = Vec::new();
    let mut i: usize = from;
    while i < to
        invariant
            from <= i <= to <= v@.len(),
            out@ == v@.subrange(from as int, i as int),
        decreases to - i,
    {
        out.push(v[i]);
        i = i + 1;
        assert(out@ =~= v@.subrange(from as int, i as int));
    }
    out
}

proof fn lemma_index_of_props(s: Seq<char>, c: char)
    ensures
        index_of(s, c) <= s.len(),
        forall|j: int| 0 <= j < index_of(s, c) ==> s[j] != c,
        index_of(s, c) < s.len() ==> s[index_of(s, c) as int] == c,
    decreases s.len(),
{
    if s.len() > 0 && s[0] != c {
        lemma_index_of_props(s.drop_first(), c);
        assert forall|j: int| 0 <= j < index_of(s, c) implies s[j] != c by {
            if j > 0 {
                assert(s.drop_first()[j - 1] == s[j]);
            }
        }
    }
}

proof fn lemma_index_of_exact(s: Seq<char>, c: char, k: int)
    requires
        0 <= k <= s.len(),
        forall|j: int| 0 <= j < k ==> s[j] != c,
        k == s.len() || s[k] == c,
    ensures
        index_of(s, c) == k,
{
    lemma_index_of_props(s, c);
    if index_of(s, c) < k {
        assert(s[index_of(s, c) as int] == c);
    }
    if index_of(s, c) > k {
        assert(s[k] != c);
    }
}

fn find_char_in(s: &Vec<char>, from: usize, to: usize, c: char) -> (r: usize)
    requires
        from <= to <= s@.len(),
    ensures
        r == from + index_of(s@.subrange(from as int, to as int), c),
        from <= r <= to,
{
    let mut k: usize = from;
    while k < to && s[k] != c
        invariant
            from <= k <= to <= s@.len(),
            forall|j: int| from <= j < k ==> s@[j] != c,
        decreases to - k,
    {
        k = k + 1;
    }
    proof {
        let t = s@.subrange(from as int, to as int);
        assert forall|j: int| 0 <= j < k - from implies t[j] != c by {
            assert(t[j] == s@[j + from]);
        }
        if k < to {
            assert(t[k - from] == s@[k as int]);
        }
        lemma_index_of_exact(t, c, k - from);
    }
    k
}

fn eq_ignore_case_range(s: &Vec<char>, from: usize, to: usize, target: &str) -> (r: bool)
    requires
        from <= to <= s@.len(),
    ensures
        r == eq_ignore_ascii_case(s@.subrange(from as int, to as int), target@),
{
    let t = chars_of(target);
    if to - from != t.len() {
        return false;
    }
    let mut i: usize = 0;
    while i < t.len()
        invariant
            t@ == target@,
            to - from == t@.len(),
            from <= to <= s@.len(),
            i <= t@.len(),
            forall|j: int| 0 <= j < i ==> ascii_lower(#[trigger] s@[from + j]) == t@[j],
        decreases t@.len() - i,
    {
        if to_ascii_lower(s[from + i]) != t[i] {
            assert(ascii_lower(s@.subrange(from as int, to as int)[i as int]) != target@[i as int]);
            return false;
        }
        i = i + 1;
    }
    assert forall|j: int| 0 <= j < t@.len() implies ascii_lower(
        #[trigger] s@.subrange(from as int, to as int)[j],
    ) == target@[j] by {
        assert(s@.subrange(from as int, to as int)[j] == s@[from + j]);
    }
    true
}

fn line_value(hs: &Vec<char>, p: usize, e: usize) -> (r: Option<usize>)
    requires
        p <= e <= hs@.len(),
    ensures
        match line_content_length(hs@.subrange(p as int, e as int)) {
            Some(v) => r == Some(v as usize) && v <= usize::MAX,
            None => r is None,
        },
{
    let ghost line = hs@.subrange(p as int, e as int);
    let j = find_char_in(hs, p, e, ':');
    let ghost jj = index_of(line, ':');
    assert(j == p + jj);
    assert(line.take(jj as int) =~= hs@.subrange(p as int, j as int));
    if j < e && eq_ignore_case_range(hs, p, j, "content-length") {
        assert(line.skip((jj + 1) as int) =~= hs@.subrange(j + 1, e as int));
        let (a, b) = trim_range(hs, j + 1, e);
        parse_usize_range(hs, a, b)
    } else {
        None
    }
}

/// The first `Content-Length` that the header text gives.
pub fn content_length_of(headers: &str) -> (r: Option<usize>)
    ensures
        match content_length_in(headers@) {
            Some(v) => r == Some(v as usize) && v <= usize::MAX,
            None => r is None,
        },
{
    let hs = chars_of(headers);
    let mut p: usize = 0;
    assert(headers@.skip(0) =~= headers@);
    while p < hs.len()
        invariant
            hs@ == headers@,
            p <= hs@.len(),
            content_length_in(headers@) == content_length_in(headers@.skip(p as int)),
        decreases hs@.len() - p,
    {
        let ghost rest = headers@.skip(p as int);
        let k = find_char(&hs, p, '\n');
        proof {
            assert(hs@.skip(p as int) =~= rest);
            lemma_index_of_props(rest, '\n');
        }
        let e: usize = if k > p && hs[k - 1] == '\r' { k - 1 } else { k };
        assert(strip_cr(rest.take(k - p)) =~= hs@.subrange(p as int, e as int));
        let found = line_value(&hs, p, e);
        if found.is_some() {
            return found;
        }
        if k < hs.len() {
            assert(rest.skip(k - p + 1) =~= headers@.skip(k + 1));
            p = k + 1;
        } else {
            return None;
        }
    }
    assert(headers@.skip(p as int) =~= Seq::<char>::empty());
    None
}

fn request_line_has_prefix(h: &Vec<char>, prefix: &str) -> (r: bool)
    ensures
        r == has_prefix(request_line(h@), prefix@),
{
    let k = find_char(h, 0, '\n');
    assert(h@.skip(0) =~= h@);
    let e: usize = if k > 0 && h[k - 1] == '\r' { k - 1 } else { k };
    assert(request_line(h@) =~= h@.subrange(0, e as int));
    let p = chars_of(prefix);
    if p.len() > e {
        return false;
    }
    let mut i: usize = 0;
    while i < p.len()
        invariant
            p@ == prefix@,
            p@.len() <= e <= h@.len(),
            request_line(h@) == h@.subrange(0, e as int),
            i <= p@.len(),
            forall|j: int| 0 <= j < i ==> h@[j] == p@[j],
        decreases p@.len() - i,
    {
        if h[i] != p[i] {
            assert(request_line(h@).take(p@.len() as int)[i as int] != prefix@[i as int]);
            return false;
        }
        i = i + 1;
    }
    assert(request_line(h@).take(p@.len() as int) =~= prefix@);
    true
}

fn body_of(raw: &Vec<u8>, header_end: usize, content_length: usize) -> (r: Vec<u8>)
    requires
        header_end <= raw@.len(),
    ensures
        r@ == body_spec(raw@, header_end as nat, content_length as nat),
{
    let avail = raw.len() - header_end;
    let n = if content_length <= avail { content_length } else { avail };
    copy_range(raw, header_end, header_end + n)
}

/// The action for a connection in its body phase.
fn body_action(raw: &Vec<u8>, header_end: usize, content_length: usize) -> (r: CallbackAction)
    requires
        header_end <= raw@.len() <= CALLBACK_BUFFER_SIZE,
        content_length <= MAX_CALLBACK_BODY,
    ensures
        body_complete(raw@, header_end as nat, content_length as nat) ==> is_body_delivery(r, raw@, header_end as nat, content_length as nat),
        !body_complete(raw@, header_end as nat, content_length as nat) ==> r == (CallbackAction::Read {
            max: (CALLBACK_BUFFER_SIZE - raw@.len()) as usize,
        }),
{
    if raw.len() >= header_end + content_length || raw.len() >= CALLBACK_BUFFER_SIZE {
        CallbackAction::ParseBody { bytes: body_of(raw, header_end, content_length) }
    } else {
        CallbackAction::Read { max: CALLBACK_BUFFER_SIZE - raw.len() }
    }
}

impl CallbackConnection {
    /// A new connection: nothing read, reading headers, first read of up
    /// to the whole buffer.
    pub fn start() -> (r: (CallbackConnection, CallbackAction))
        ensures
            r.0.raw@.len() == 0,
            r.0.phase == CallbackPhase::Headers,
            r.1 == (CallbackAction::Read { max: CALLBACK_BUFFER_SIZE }),
            connection_wf(r.0),
    {
        (
            CallbackConnection { raw: Vec::new(), phase: CallbackPhase::Headers },
            CallbackAction::Read { max: CALLBACK_BUFFER_SIZE },
        )
    }

    /// Takes the bytes that a read gave (none at end of stream) and says
    /// what to do next. While reading headers: keep reading until
    /// `\r\n\r\n` arrives or the stream ends, fail when the buffer fills
    /// first or the headers never end; then answer preflights, refuse other
    /// methods than `POST` and bodies over 4096 bytes, else read the body
    /// until it is complete, the buffer is full or the stream ends.
    pub fn on_read(&mut self, chunk: &[u8]) -> (r: CallbackAction)
        requires
            connection_wf(*old(self)),
            old(self).phase != CallbackPhase::Done,
            old(self).raw@.len() + chunk@.len() <= CALLBACK_BUFFER_SIZE,
        ensures
            connection_wf(*final(self)),
            final(self).raw@ == old(self).raw@ + chunk@,
            old(self).phase == CallbackPhase::Headers ==> {
                let raw = final(self).raw@;
                if chunk@.len() > 0 && terminator_from(raw, 0) is None {
                    if raw.len() < CALLBACK_BUFFER_SIZE {
                        final(self).phase == CallbackPhase::Headers && r == (CallbackAction::Read {
                            max: (CALLBACK_BUFFER_SIZE - raw.len()) as usize,
                        })
                    } else {
                        r == CallbackAction::Fail(LoginFailure::BadRequest)
                    }
                } else {
                    match header_end_spec(raw) {
                        None => r == CallbackAction::Fail(LoginFailure::BadRequest),
                        Some(he) => {
                            let (phase, response) = after_headers(raw, he);
                            &&& final(self).phase == phase
                            &&& match response {
                                Some(resp) => is_response(r, resp.0, resp.1),
                                None => match phase {
                                    CallbackPhase::Body { header_end, content_length } => (
                                    body_complete(raw, header_end as nat, content_length as nat) ==> is_body_delivery(r, raw, header_end as nat, content_length as nat))
                                        && (!body_complete(raw, header_end as nat, content_length as nat) ==> r == (
                                    CallbackAction::Read {
                                        max: (CALLBACK_BUFFER_SIZE - raw.len()) as usize,
                                    })),
                                    _ => false,
                                },
                            }
                        },
                    }
                }
            },
            old(self).phase matches CallbackPhase::Body { header_end, content_length } ==> {
                let raw = final(self).raw@;
                &&& final(self).phase == old(self).phase
                &&& (chunk@.len() == 0 || body_complete(raw, header_end as nat, content_length as nat)) ==> is_body_delivery(r, raw, header_end as nat, content_length as nat)
                &&& (chunk@.len() > 0 && !body_complete(raw, header_end as nat, content_length as nat)) ==> r == (
                CallbackAction::Read { max: (CALLBACK_BUFFER_SIZE - raw.len()) as usize })
            },
    {
        let ghost old_raw = self.raw@;
        let mut i: usize = 0;
        while i < chunk.len()
            invariant
                i <= chunk@.len(),
                self.raw@ == old_raw + chunk@.take(i as int),
                self.phase == old(self).phase,
            decreases chunk@.len() - i,
        {
            self.raw.push(chunk[i]);
            i = i + 1;
            assert(self.raw@ =~= old_raw + chunk@.take(i as int));
        }
        assert(chunk@.take(chunk@.len() as int) =~= chunk@);
        match self.phase {
            CallbackPhase::Body { header_end, content_length } => {
                if chunk.len() == 0 {
                    CallbackAction::ParseBody { bytes: body_of(&self.raw, header_end, content_length) }
                } else {
                    body_action(&self.raw, header_end, content_length)
                }
            },
            _ => {
                let term = find_terminator(&self.raw);
                if chunk.len() > 0 && term.is_none() {
                    if self.raw.len() < CALLBACK_BUFFER_SIZE {
                        return CallbackAction::Read { max: CALLBACK_BUFFER_SIZE - self.raw.len() };
                    } else {
                        self.phase = CallbackPhase::Done;
                        return CallbackAction::Fail(LoginFailure::BadRequest);
                    }
                }
                let t = match term {
                    None => {
                        self.phase = CallbackPhase::Done;
                        return CallbackAction::Fail(LoginFailure::BadRequest);
                    },
                    Some(t) => t,
                };
                proof {
                    lemma_terminator_bound(self.raw@, 0);
                }
                let he = t + 4;
                let head_bytes = copy_range(&self.raw, 0, he);
                let headers = utf8_lossy_string(head_bytes.as_slice());
                assert(head_bytes@ =~= self.raw@.take(he as int));
                let hs = chars_of(headers.as_str());
                let cl = match content_length_of(headers.as_str()) {
                    Some(v) => v,
                    None => 0,
                };
                if request_line_has_prefix(&hs, "OPTIONS ") {
                    self.phase = CallbackPhase::Done;
                    CallbackAction::Respond {
                        status: 200,
                        body: owned("OK"),
                        then: AfterResponse::NextConnection,
                    }
                } else if !request_line_has_prefix(&hs, "POST ") {
                    self.phase = CallbackPhase::Done;
                    CallbackAction::Respond {
                        status: 405,
                        body: owned("method not allowed"),
                        then: AfterResponse::NextConnection,
                    }
                } else if cl > MAX_CALLBACK_BODY {
                    self.phase = CallbackPhase::Done;
                    CallbackAction::Respond {
                        status: 400,
                        body: owned("bad request"),
                        then: AfterResponse::NextConnection,
                    }
                } else {
                    self.phase = CallbackPhase::Body { header_end: he, content_length: cl };
                    body_action(&self.raw, he, cl)
                }
            },
        }
    }
}

proof fn lemma_terminator_bound(raw: Seq<u8>, from: nat)
    ensures
        terminator_from(raw, from) matches Some(i) ==> from <= i && i + 4 <= raw.len(),
    decreases raw.len() - from,
{
    if from + 4 <= raw.len() && !terminator_at(raw, from as int) {
        lemma_terminator_bound(raw, from + 1);
    }
}

proof fn lemma_terminator_first(raw: Seq<u8>, from: nat)
    ensures
        terminator_from(raw, from) is Some ==> ({
            let k = terminator_from(raw, from).unwrap();
            &&& from <= k
            &&& terminator_at(raw, k as int)
            &&& forall|i: int| from <= i < k ==> !#[trigger] terminator_at(raw, i)
        }),
        terminator_from(raw, from) is None ==> forall|i: int| from <= i ==> !#[trigger] terminator_at(raw, i),
    decreases raw.len() - from,
{
    if from + 4 <= raw.len() && !terminator_at(raw, from as int) {
        lemma_terminator_first(raw, from + 1);
    }
}

/// Law: the headers end just past the first `\r\n\r\n` of the bytes
/// received, and have not ended while the bytes hold none.
pub proof fn lemma_header_end_first(raw: Seq<u8>)
    ensures
        header_end_spec(raw) is Some ==> ({
            let e = header_end_spec(raw).unwrap();
            &&& 4 <= e <= raw.len()
            &&& raw.subrange(e - 4, e as int) == seq![13u8, 10u8, 13u8, 10u8]
            &&& forall|i: int| 0 <= i < e - 4 ==> !#[trigger] terminator_at(raw, i)
        }),
        header_end_spec(raw) is None ==> forall|i: int| 0 <= i ==> !#[trigger] terminator_at(raw, i),
{
    lemma_terminator_first(raw, 0);
    if header_end_spec(raw) is Some {
        let e = header_end_spec(raw).unwrap();
        assert(raw.subrange(e - 4, e as int) =~= seq![13u8, 10u8, 13u8, 10u8]);
    }
}

/// What a parsed callback body leads to: a body that is not a login
/// envelope is refused and the next connection served; an error code other
/// than `0000` or a missing key is refused and fails the login; otherwise
/// the login succeeds, with the user when a name or id was sent.
pub fn judge_envelope(envelope: Option<LoginEnvelope>) -> (r: CallbackAction)
    ensures
        match envelope {
            None => is_response(r, 400, "bad request"@),
            Some(env) => if env.error_code@ != LOGIN_SUCCESS_CODE@ {
                r matches CallbackAction::Respond {
                    status,
                    body,
                    then: AfterResponse::Fail(LoginFailure::Rejected { error_code, error_msg }),
                } && status == 400 && body@ == "bad request"@ && error_code == env.error_code
                    && error_msg == env.error_msg
            } else if env.result.api_key@.len() == 0 {
                r matches CallbackAction::Respond {
                    status,
                    body,
                    then: AfterResponse::Fail(LoginFailure::MissingApiKey),
                } && status == 400 && body@ == "missing api key"@
            } else {
                r matches CallbackAction::Respond {
                    status,
                    body,
                    then: AfterResponse::LoggedIn { api_key, user_info },
                } && status == 200 && body@ == "OK"@ && api_key == env.result.api_key && if env.result.user_name@.len()
                    == 0 && env.result.user_id@.len() == 0 {
                    user_info is None
                } else {
                    user_info == Some(
                        UserInfo { user_name: env.result.user_name, user_id: env.result.user_id },
                    )
                }
            },
        },
{
    let env = match envelope {
        None => {
            return CallbackAction::Respond {
                status: 400,
                body: owned("bad request"),
                then: AfterResponse::NextConnection,
            }
        },
        Some(env) => env,
    };
    if !crate::text::str_eq(env.error_code.as_str(), LOGIN_SUCCESS_CODE) {
        return CallbackAction::Respond {
            status: 400,
            body: owned("bad request"),
            then: AfterResponse::Fail(
                LoginFailure::Rejected { error_code: env.error_code, error_msg: env.error_msg },
            ),
        };
    }
    if env.result.api_key.as_str().unicode_len() == 0 {
        return CallbackAction::Respond {
            status: 400,
            body: owned("missing api key"),
            then: AfterResponse::Fail(LoginFailure::MissingApiKey),
        };
    }
    let user_info = if env.result.user_name.as_str().unicode_len() == 0
        && env.result.user_id.as_str().unicode_len() == 0 {
        None
    } else {
        Some(UserInfo { user_name: env.result.user_name, user_id: env.result.user_id })
    };
    CallbackAction::Respond {
        status: 200,
        body: owned("OK"),
        then: AfterResponse::LoggedIn { api_key: env.result.api_key, user_info },
    }
}

/// The reason phrase of a callback response status.
pub open spec fn reason_phrase(status: u16) -> Seq<char> {
    if status == 200 {
        "OK"@
    } else if status == 400 {
        "Bad Request"@
    } else if status == 405 {
        "Method Not Allowed"@
    } else {
        "Error"@
    }
}

/// The full text of a callback response, with the CORS headers that let
/// the login site post to it.
pub open spec fn http_response_spec(status: u16, body: &str) -> Seq<char> {
    "HTTP/1.1 "@ + decimal(status as nat) + " "@ + reason_phrase(status)
        + "\r\nAccess-Control-Allow-Origin: "@ + LOGIN_URL@
        + "\r\nAccess-Control-Allow-Methods: POST, OPTIONS\r\nAccess-Control-Allow-Headers: Content-Type\r\nContent-Length: "@
        + decimal(body.len() as nat) + "\r\nConnection: close\r\n\r\n"@ + body@
}

/// The text of a callback response.
pub fn http_response(status: u16, body: &str) -> (r: String)
    ensures
        r@ == http_response_spec(status, body),
{
    let reason = if status == 200 {
        "OK"
    } else if status == 400 {
        "Bad Request"
    } else if status == 405 {
        "Method Not Allowed"
    } else {
        "Error"
    };
    let mut s = owned("HTTP/1.1 ");
    push_decimal(&mut s, status as u64);
    push_str(&mut s, " ");
    push_str(&mut s, reason);
    push_str(&mut s, "\r\nAccess-Control-Allow-Origin: ");
    push_str(&mut s, LOGIN_URL);
    push_str(
        &mut s,
        "\r\nAccess-Control-Allow-Methods: POST, OPTIONS\r\nAccess-Control-Allow-Headers: Content-Type\r\nContent-Length: ",
    );
    let n = body.len();
    push_decimal(&mut s, n as u64);
    push_str(&mut s, "\r\nConnection: close\r\n\r\n");
    push_str(&mut s, body);
    s
}

impl AuthError {
    /// The text of the error, in `lang` where it is translated.
    pub fn message_text(&self, lang: Lang) -> (r: String)
        ensures
            r@ == match self {
                AuthError::Expired => pick(lang, "API key expired, please login again"@, "API Key 已过期，请重新登录"@),
                AuthError::Config(e) => config_error_text(*e),
                AuthError::InvalidKey => "api key is invalid or disabled"@,
                AuthError::UnexpectedStatus { status, body } => "verify api key: unexpected status "@
                    + decimal(*status as nat) + ", body="@ + body@,
            },
    {
        match self {
            AuthError::Expired => owned(crate::cli::i18n::api::expired(lang)),
            AuthError::Config(e) => e.message_text(),
            AuthError::InvalidKey => owned("api key is invalid or disabled"),
            AuthError::UnexpectedStatus { status, body } => {
                let mut s = owned("verify api key: unexpected status ");
                push_decimal(&mut s, *status as u64);
                push_str(&mut s, ", body=");
                push_str(&mut s, body.as_str());
                s
            },
        }
    }
}

/// The API key management page of the login site.
pub open spec fn api_key_page() -> Seq<char> {
    LOGIN_URL@ + "/space/devbridge/apikey"@
}

fn push_api_key_page(s: &mut String)
    ensures
        final(s)@ == old(s)@ + api_key_page(),
{
    push_str(s, LOGIN_URL);
    push_str(s, "/space/devbridge/apikey");
}

impl LoginFailure {
    /// The text of the failure.
    pub fn message_text(&self) -> (r: String)
        ensures
            r@ == match self {
                LoginFailure::BadRequest => "bad request"@,
                LoginFailure::Rejected { error_code, error_msg } => "Failed to login: error code: "@
                    + error_code@ + ", error message: "@ + error_msg@
                    + "\nPlease go to the management page to delete API Keys and try again. API Key management page: "@
                    + api_key_page(),
                LoginFailure::MissingApiKey => "missing api key"@,
            },
    {
        match self {
            LoginFailure::BadRequest => owned("bad request"),
            LoginFailure::Rejected { error_code, error_msg } => {
                let mut s = owned("Failed to login: error code: ");
                push_str(&mut s, error_code.as_str());
                push_str(&mut s, ", error message: ");
                push_str(&mut s, error_msg.as_str());
                push_str(
                    &mut s,
                    "\nPlease go to the management page to delete API Keys and try again. API Key management page: ",
                );
                push_api_key_page(&mut s);
                s
            },
            LoginFailure::MissingApiKey => owned("missing api key"),
        }
    }
}

/// What a login says when no browser could be opened: where keys are
/// managed, how to log in with one, and the opener's error.
pub fn no_browser_message(error: &str) -> (r: String)
    ensures
        r@ == "No browser available, please login manually. API Key management page: "@
            + api_key_page() + "\nFor example: ./devbridge auth login --api-key=YOUR_API_KEY ("@
            + error@ + ")"@,
{
    let mut s = owned("No browser available, please login manually. API Key management page: ");
    push_api_key_page(&mut s);
    push_str(&mut s, "\nFor example: ./devbridge auth login --api-key=YOUR_API_KEY (");
    push_str(&mut s, error);
    push_str(&mut s, ")");
    s
}

/// The login redirect page of the login site, parsed by `url`, with
/// `origin=devbridge`, the language and the callback port appended; a URL
/// error as its text.
pub open spec fn browser_login_url_spec(language: Seq<char>, port: u16) -> Result<Seq<char>, Seq<char>> {
    match url_parsed(LOGIN_URL@ + LOGIN_REDIRECT_PATH@) {
        Err(e) => Err(e),
        Ok(page) => match url_with_pair(page, "origin"@, "devbridge"@) {
            Err(e) => Err(e),
            Ok(a) => match url_with_pair(a, "language"@, language) {
                Err(e) => Err(e),
                Ok(b) => url_with_pair(b, "callback"@, decimal(port as nat)),
            },
        },
    }
}

/// The page a browser login opens for a callback on `port`.
pub fn browser_login_url(language: &str, port: u16) -> (r: Result<String, String>)
    ensures
        text_result(r) == browser_login_url_spec(language@, port),
{
    let mut page = owned(LOGIN_URL);
    push_str(&mut page, LOGIN_REDIRECT_PATH);
    let parsed = parse_url(page.as_str())?;
    let a = append_query_pair(parsed.as_str(), "origin", "devbridge")?;
    let b = append_query_pair(a.as_str(), "language", language)?;
    let port_text = decimal_string(port as u64);
    append_query_pair(b.as_str(), "callback", port_text.as_str())
}

} // verus!
