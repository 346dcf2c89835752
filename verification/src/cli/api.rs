//! The REST management API as the command-line front end uses it: input
//! validation, the request each command sends, response records, and how
//! failed responses are reported.
use vstd::prelude::*;
use crate::control::api::{
    is_ok_request, is_tunnel_id_char, opt_str, port_path, valid_expiration_spec, valid_port_spec,
    valid_tunnel_id_spec,
};
use crate::cli::config::{DEFAULT_CLUSTER_ID, DEFAULT_SERVER_DOMAIN};
use crate::control::settings::api_base_url_spec;
use crate::http::{
    bool_field, fields_view, has_member, int_field, json_bool, json_int, json_null, json_object,
    json_object_text, json_quoted, member_carries, null_text, string_field, ApiRequest, HttpMethod,
};
use crate::text::{chars_of, debug_quoted, debug_text, lemma_empty_literal, owned, push_signed_decimal, push_str, str_eq, trim_end_matches_char};

verus! {

/// A request rejected before it is sent.
#[derive(Debug, Clone)]
pub enum RequestError {
    /// Not 8 characters from `a`-`z` and `2`-`7`.
    InvalidTunnelId { tunnel_id: String },
    /// A tunnel name of no characters or more than 64.
    InvalidName,
    /// Not within `1..=720` hours.
    InvalidExpiration,
    /// Neither `1..=65535` nor `-1`.
    InvalidPort { port: i32 },
    /// A token scope other than `host` or `connect`.
    InvalidScope,
    /// Not `http`, `https` or `auto`.
    InvalidProtocol,
}

impl RequestError {
    /// The text of the error.
    pub fn message_text(&self) -> (r: String)
        ensures
            r@ == match self {
                RequestError::InvalidTunnelId { tunnel_id } => "invalid tunnel id "@ + debug_text(
                    tunnel_id@,
                ) + ": expected 8 lowercase base32 characters"@,
                RequestError::InvalidName => "tunnel name must contain 1..=64 characters"@,
                RequestError::InvalidExpiration => "expiration must be 1..=720 hours"@,
                RequestError::InvalidPort { .. } => "port must be 1..=65535, or -1 for all ports"@,
                RequestError::InvalidScope => "scope must be host or connect"@,
                RequestError::InvalidProtocol => "protocol must be http, https or auto"@,
            },
    {
        match self {
            RequestError::InvalidTunnelId { tunnel_id } => {
                let mut s = owned("invalid tunnel id ");
                let q = debug_quoted(tunnel_id.as_str());
                push_str(&mut s, q.as_str());
                push_str(&mut s, ": expected 8 lowercase base32 characters");
                s
            },
            RequestError::InvalidName => owned("tunnel name must contain 1..=64 characters"),
            RequestError::InvalidExpiration => owned("expiration must be 1..=720 hours"),
            RequestError::InvalidPort { .. } => owned("port must be 1..=65535, or -1 for all ports"),
            RequestError::InvalidScope => owned("scope must be host or connect"),
            RequestError::InvalidProtocol => owned("protocol must be http, https or auto"),
        }
    }
}

/// How a failed response is reported.
#[derive(Debug, Clone)]
pub enum ApiFailure {
    /// The body carried an error envelope.
    Api { code: String, message: String },
    /// Any other failure: the status line and the body text.
    Http { status: String, body: String },
    /// The key check answered `401`.
    InvalidKey,
    /// The key check answered neither `204` nor `401`.
    UnexpectedStatus { status: String },
}

impl ApiFailure {
    /// The text of the failure.
    pub fn message_text(&self) -> (r: String)
        ensures
            r@ == match self {
                ApiFailure::Api { code, message } => "API "@ + code@ + ": "@ + message@,
                ApiFailure::Http { status, body } => "API request failed: HTTP "@ + status@ + ": "@
                    + body@,
                ApiFailure::InvalidKey => "API key is invalid or disabled"@,
                ApiFailure::UnexpectedStatus { status } => "verify API key: unexpected HTTP "@
                    + status@,
            },
    {
        match self {
            ApiFailure::Api { code, message } => {
                let mut s = owned("API ");
                push_str(&mut s, code.as_str());
                push_str(&mut s, ": ");
                push_str(&mut s, message.as_str());
                s
            },
            ApiFailure::Http { status, body } => {
                let mut s = owned("API request failed: HTTP ");
                push_str(&mut s, status.as_str());
                push_str(&mut s, ": ");
                push_str(&mut s, body.as_str());
                s
            },
            ApiFailure::InvalidKey => owned("API key is invalid or disabled"),
            ApiFailure::UnexpectedStatus { status } => {
                let mut s = owned("verify API key: unexpected HTTP ");
                push_str(&mut s, status.as_str());
                s
            },
        }
    }
}

/// Account quotas and limits.
#[derive(Debug, Clone)]
pub struct Limits {
    pub reset_at: i64,
    pub quota_bytes: i64,
    pub remaining_bytes: i64,
    pub active_tunnels: i64,
    pub max_tunnels: i32,
    pub max_ports_per_tunnel: i32,
    pub max_hosts_per_tunnel: i32,
    pub max_tunnel_bandwidth_bytes_per_second: i64,
    pub max_http_requests_per_minute_per_port: i32,
    pub max_connections_per_port: i32,
}

/// A tunnel as the API lists it.
#[derive(Debug, Clone)]
pub struct TunnelSummary {
    pub name: String,
    pub tunnel_id: String,
    pub tunnel_expiration: u32,
    pub description: String,
    pub port_count: i32,
}

/// Connection and traffic counters of a tunnel.
#[derive(Debug, Clone)]
pub struct TunnelStatus {
    pub client_connection_count: i32,
    pub host_connection_count: i32,
    pub total_upload_bytes: i64,
    pub total_download_bytes: i64,
}

/// One tunnel with its status.
#[derive(Debug, Clone)]
pub struct Tunnel {
    pub name: String,
    pub tunnel_id: String,
    pub tunnel_expiration: u32,
    pub description: String,
    pub status: Option<TunnelStatus>,
}

/// A newly created tunnel.
#[derive(Debug, Clone)]
pub struct CreatedTunnel {
    pub tunnel_id: String,
    pub name: String,
    pub description: String,
    pub expiration_hours: i32,
}

/// One port of a tunnel.
#[derive(Debug, Clone)]
pub struct Port {
    pub port: i32,
    pub protocol: String,
    pub allow_anonymous: bool,
    pub tunnel_id: String,
}

/// A scoped access token of a tunnel.
#[derive(Debug, Clone)]
pub struct TunnelToken {
    pub tunnel_id: String,
    pub scope: String,
    pub token: String,
}

/// Tunnel names have 1 to 64 characters.
pub open spec fn valid_name_spec(name: Seq<char>) -> bool {
    0 < name.len() && name.len() <= 64
}

/// `http`, `https` or `auto`.
pub open spec fn valid_protocol_spec(protocol: Seq<char>) -> bool {
    protocol == "http"@ || protocol == "https"@ || protocol == "auto"@
}

/// `r` rejects the tunnel id `id`.
pub open spec fn is_tunnel_id_rejection(r: Result<ApiRequest, RequestError>, id: Seq<char>) -> bool {
    r matches Err(e) && e matches RequestError::InvalidTunnelId { tunnel_id } && tunnel_id@ == id
}

/// `r` is exactly the error `e`.
pub open spec fn is_error(r: Result<ApiRequest, RequestError>, e: RequestError) -> bool {
    r == Err::<ApiRequest, RequestError>(e)
}

/// The body of a tunnel creation: the members of the serialised JSON value,
/// in key order.
pub open spec fn create_tunnel_fields(
    name: Seq<char>,
    description: Seq<char>,
    cluster_id: Seq<char>,
    expiration: Option<i32>,
) -> Seq<(Seq<char>, Seq<char>)> {
    let a = seq![("ClusterId"@, json_quoted(cluster_id))];
    let b = if description.len() == 0 {
        a
    } else {
        a.push(("description"@, json_quoted(description)))
    };
    let c = match expiration {
        None => b,
        Some(e) => b.push(("expiration"@, json_int(e as int))),
    };
    c.push(("name"@, json_quoted(name)))
}

/// The body of a tunnel update: the given members, in key order.
pub open spec fn update_tunnel_fields(
    name: Option<Seq<char>>,
    description: Option<Seq<char>>,
    expiration: Option<i32>,
) -> Seq<(Seq<char>, Seq<char>)> {
    let a = match description {
        None => Seq::empty(),
        Some(d) => seq![("description"@, json_quoted(d))],
    };
    let b = match expiration {
        None => a,
        Some(e) => a.push(("expiration"@, json_int(e as int))),
    };
    match name {
        None => b,
        Some(n) => b.push(("name"@, json_quoted(n))),
    }
}

/// Law: a creation sends the cluster, the name, the description only when
/// it is not empty and the expiration only when given, each member with its
/// value, in key order.
pub proof fn lemma_create_tunnel_members(
    name: Seq<char>,
    description: Seq<char>,
    cluster_id: Seq<char>,
    expiration: Option<i32>,
)
    ensures
        ({
            let f = create_tunnel_fields(name, description, cluster_id, expiration);
            &&& f.len() == 2 + (if description.len() > 0 { 1int } else { 0int }) + (if expiration is Some { 1int } else { 0int })
            &&& f[0] == ("ClusterId"@, json_quoted(cluster_id))
            &&& f.last() == ("name"@, json_quoted(name))
            &&& has_member(f, "description"@) <==> description.len() > 0
            &&& member_carries(f, "description"@, json_quoted(description))
            &&& has_member(f, "expiration"@) <==> expiration is Some
            &&& (expiration is Some ==> member_carries(f, "expiration"@, json_int(expiration.unwrap() as int)))
            &&& member_carries(f, "name"@, json_quoted(name))
            &&& member_carries(f, "ClusterId"@, json_quoted(cluster_id))
        }),
{
    reveal_strlit("name");
    reveal_strlit("description");
    reveal_strlit("ClusterId");
    reveal_strlit("expiration");
    let f = create_tunnel_fields(name, description, cluster_id, expiration);
    if description.len() > 0 {
        assert(f[1].0 == "description"@);
    }
    if expiration is Some {
        assert(f[f.len() - 2].0 == "expiration"@);
    }
    assert forall|i: int| 0 <= i < f.len() && #[trigger] f[i].0 == "description"@ implies description.len() > 0
        && f[i].1 == json_quoted(description) by {
        assert(f[i].0.len() == 11);
    }
    assert forall|i: int| 0 <= i < f.len() && #[trigger] f[i].0 == "expiration"@ implies expiration is Some
        && f[i].1 == json_int(expiration.unwrap() as int) by {
        assert(f[i].0.len() == 10);
    }
    assert forall|i: int| 0 <= i < f.len() && #[trigger] f[i].0 == "name"@ implies f[i].1 == json_quoted(name) by {
        assert(f[i].0.len() == 4);
    }
    assert forall|i: int| 0 <= i < f.len() && #[trigger] f[i].0 == "ClusterId"@ implies f[i].1 == json_quoted(cluster_id) by {
        assert(f[i].0.len() == 9);
    }
}

/// Law: an update sends exactly the fields it was given, each member with
/// its value, and no member for a field left out.
pub proof fn lemma_update_tunnel_members(
    name: Option<Seq<char>>,
    description: Option<Seq<char>>,
    expiration: Option<i32>,
)
    ensures
        ({
            let f = update_tunnel_fields(name, description, expiration);
            &&& f.len() == (if name is Some { 1int } else { 0int }) + (if description is Some { 1int } else { 0int })
                + (if expiration is Some { 1int } else { 0int })
            &&& has_member(f, "name"@) <==> name is Some
            &&& has_member(f, "description"@) <==> description is Some
            &&& has_member(f, "expiration"@) <==> expiration is Some
            &&& (name is Some ==> member_carries(f, "name"@, json_quoted(name.unwrap())))
            &&& (description is Some ==> member_carries(f, "description"@, json_quoted(description.unwrap())))
            &&& (expiration is Some ==> member_carries(f, "expiration"@, json_int(expiration.unwrap() as int)))
        }),
{
    reveal_strlit("name");
    reveal_strlit("description");
    reveal_strlit("expiration");
    let f = update_tunnel_fields(name, description, expiration);
    if description is Some {
        assert(f[0].0 == "description"@);
    }
    if expiration is Some {
        let k = if description is Some { 1int } else { 0int };
        assert(f[k].0 == "expiration"@);
    }
    if name is Some {
        assert(f[f.len() - 1].0 == "name"@);
    }
    assert forall|i: int| 0 <= i < f.len() && #[trigger] f[i].0 == "description"@ implies description is Some
        && f[i].1 == json_quoted(description.unwrap()) by {
        assert(f[i].0.len() == 11);
    }
    assert forall|i: int| 0 <= i < f.len() && #[trigger] f[i].0 == "expiration"@ implies expiration is Some
        && f[i].1 == json_int(expiration.unwrap() as int) by {
        assert(f[i].0.len() == 10);
    }
    assert forall|i: int| 0 <= i < f.len() && #[trigger] f[i].0 == "name"@ implies name is Some
        && f[i].1 == json_quoted(name.unwrap()) by {
        assert(f[i].0.len() == 4);
    }
}

/// Accepts tunnel ids of 8 characters from `a`-`z` and `2`-`7`.
pub fn validate_tunnel_id(id: &str) -> (r: Result<(), RequestError>)
    ensures
        r is Ok <==> valid_tunnel_id_spec(id@),
        r matches Err(e) ==> (e matches RequestError::InvalidTunnelId { tunnel_id } && tunnel_id@
            == id@),
{
    let cs = chars_of(id);
    if cs.len() != 8 {
        return Err(RequestError::InvalidTunnelId { tunnel_id: owned(id) });
    }
    let mut i: usize = 0;
    while i < cs.len()
        invariant
            cs@ == id@,
            cs@.len() == 8,
            i <= cs@.len(),
            forall|j: int| 0 <= j < i ==> is_tunnel_id_char(#[trigger] cs@[j]),
        decreases cs@.len() - i,
    {
        let c = cs[i];
        if !(('a' <= c && c <= 'z') || ('2' <= c && c <= '7')) {
            assert(!is_tunnel_id_char(id@[i as int]));
            return Err(RequestError::InvalidTunnelId { tunnel_id: owned(id) });
        }
        i = i + 1;
    }
    Ok(())
}

fn validate_name(name: &str) -> (r: Result<(), RequestError>)
    ensures
        r is Ok <==> valid_name_spec(name@),
        r matches Err(e) ==> e == RequestError::InvalidName,
{
    let n = name.unicode_len();
    if n == 0 || n > 64 {
        Err(RequestError::InvalidName)
    } else {
        Ok(())
    }
}

fn validate_port(port: i32) -> (r: Result<(), RequestError>)
    ensures
        r is Ok <==> valid_port_spec(port),
        r matches Err(e) ==> e == (RequestError::InvalidPort { port }),
{
    if port == -1 || (1 <= port && port <= 65535) {
        Ok(())
    } else {
        Err(RequestError::InvalidPort { port })
    }
}

fn validate_protocol(protocol: &str) -> (r: Result<(), RequestError>)
    ensures
        r is Ok <==> valid_protocol_spec(protocol@),
        r matches Err(e) ==> e == RequestError::InvalidProtocol,
{
    if str_eq(protocol, "http") || str_eq(protocol, "https") || str_eq(protocol, "auto") {
        Ok(())
    } else {
        Err(RequestError::InvalidProtocol)
    }
}

fn validate_expiration(exp: Option<i32>) -> (r: Result<(), RequestError>)
    ensures
        r is Ok <==> (exp matches Some(v) ==> valid_expiration_spec(v)),
        r matches Err(e) ==> e == RequestError::InvalidExpiration,
{
    if let Some(v) = exp {
        if !(1 <= v && v <= 720) {
            return Err(RequestError::InvalidExpiration);
        }
    }
    Ok(())
}

/// Whether the key check's status means the key is accepted (`204`), and
/// otherwise how it is reported; `status_text` is the status line.
pub fn verify_outcome(status: u16, status_text: &str) -> (r: Result<(), ApiFailure>)
    ensures
        status == 204 ==> r is Ok,
        status == 401 ==> r == Err::<(), ApiFailure>(ApiFailure::InvalidKey),
        status != 204 && status != 401 ==> (r matches Err(ApiFailure::UnexpectedStatus { status: s })
            && s@ == status_text@),
{
    if status == 204 {
        Ok(())
    } else if status == 401 {
        Err(ApiFailure::InvalidKey)
    } else {
        Err(ApiFailure::UnexpectedStatus { status: owned(status_text) })
    }
}

/// How a failed response is reported: by its error envelope when the body
/// holds one with an error, else by status line and body text.
pub fn request_failure(status_text: &str, body_text: &str, envelope_error: Option<(String, String)>) -> (r:
    ApiFailure)
    ensures
        match envelope_error {
            Some(e) => r == (ApiFailure::Api { code: e.0, message: e.1 }),
            None => r matches ApiFailure::Http { status, body } && status@ == status_text@ && body@
                == body_text@,
        },
{
    match envelope_error {
        Some(e) => ApiFailure::Api { code: e.0, message: e.1 },
        None => ApiFailure::Http { status: owned(status_text), body: owned(body_text) },
    }
}

/// The API client's endpoint, key and cluster; every request carries the
/// key in `X-API-Key`.
#[derive(Debug, Clone)]
pub struct ApiClient {
    pub base: String,
    pub key: String,
    pub cluster_id: String,
}

/// The spec view of an override, with its default.
pub open spec fn or_default(value: Option<&str>, default: Seq<char>) -> Seq<char> {
    match value {
        Some(v) => v@,
        None => default,
    }
}

impl ApiClient {
    /// A client for an API key, the server domain (or the default) and the
    /// cluster (or the default).
    pub fn new(key: String, base_override: Option<&str>, cluster_override: Option<&str>) -> (r:
        ApiClient)
        ensures
            r.key == key,
            r.base@ == api_base_url_spec(or_default(base_override, DEFAULT_SERVER_DOMAIN@)),
            r.cluster_id@ == or_default(cluster_override, DEFAULT_CLUSTER_ID@),
    {
        let domain = match base_override {
            Some(b) => b,
            None => DEFAULT_SERVER_DOMAIN,
        };
        let mut base = trim_end_matches_char(domain, '/');
        push_str(&mut base, "/open-api-inner/v1/relay-controller");
        let cluster = match cluster_override {
            Some(c) => owned(c),
            None => owned(DEFAULT_CLUSTER_ID),
        };
        ApiClient { base, key, cluster_id: cluster }
    }

    fn url(&self, path: &str) -> (r: String)
        ensures
            r@ == self.base@ + path@,
    {
        let mut s = self.base.clone();
        push_str(&mut s, path);
        s
    }

    fn tunnel_url(&self, id: &str, tail: &str) -> (r: String)
        ensures
            r@ == self.base@ + "/tunnels/"@ + id@ + tail@,
    {
        let mut s = self.base.clone();
        push_str(&mut s, "/tunnels/");
        push_str(&mut s, id);
        push_str(&mut s, tail);
        s
    }

    fn port_url(&self, id: &str, port: i32) -> (r: String)
        ensures
            r@ == self.base@ + port_path(id@, port),
    {
        let mut s = self.tunnel_url(id, "/ports/");
        push_signed_decimal(&mut s, port as i64);
        assert(s@ =~= self.base@ + port_path(id@, port));
        s
    }

    /// `GET /auth/check`: `204` accepts the key, `401` rejects it.
    pub fn verify(&self) -> (r: ApiRequest)
        ensures
            r.method == HttpMethod::Get && r.url@ == self.base@ + "/auth/check"@ && r.body is None,
    {
        ApiRequest { method: HttpMethod::Get, url: self.url("/auth/check"), body: None }
    }

    /// `GET /limits`.
    pub fn limits(&self) -> (r: ApiRequest)
        ensures
            r.method == HttpMethod::Get && r.url@ == self.base@ + "/limits"@ && r.body is None,
    {
        ApiRequest { method: HttpMethod::Get, url: self.url("/limits"), body: None }
    }

    /// `GET /tunnels`.
    pub fn list_tunnels(&self) -> (r: ApiRequest)
        ensures
            r.method == HttpMethod::Get && r.url@ == self.base@ + "/tunnels"@ && r.body is None,
    {
        ApiRequest { method: HttpMethod::Get, url: self.url("/tunnels"), body: None }
    }

    /// `GET /tunnels/{id}`.
    pub fn show_tunnel(&self, id: &str) -> (r: Result<ApiRequest, RequestError>)
        ensures
            valid_tunnel_id_spec(id@) ==> is_ok_request::<RequestError>(r, HttpMethod::Get, self.base@ + "/tunnels/"@ + id@, None),
            !valid_tunnel_id_spec(id@) ==> is_tunnel_id_rejection(r, id@),
    {
        validate_tunnel_id(id)?;
        let url = self.tunnel_url(id, "");
        proof {
            lemma_empty_literal();
        }
        assert(url@ =~= self.base@ + "/tunnels/"@ + id@);
        Ok(ApiRequest { method: HttpMethod::Get, url, body: None })
    }

    /// `POST /tunnels` with a validated name and expiration.
    pub fn create_tunnel(&self, name: &str, desc: &str, exp: Option<i32>) -> (r: Result<
        ApiRequest,
        RequestError,
    >)
        ensures
            !valid_name_spec(name@) ==> is_error(r, RequestError::InvalidName),
            valid_name_spec(name@) && (exp matches Some(v) && !valid_expiration_spec(v)) ==> is_error(
                r,
                RequestError::InvalidExpiration,
            ),
            valid_name_spec(name@) && (exp matches Some(v) ==> valid_expiration_spec(v)) ==> is_ok_request::<RequestError>(
                r,
                HttpMethod::Post,
                self.base@ + "/tunnels"@,
                Some(json_object(create_tunnel_fields(name@, desc@, self.cluster_id@, exp))),
            ),
    {
        validate_name(name)?;
        validate_expiration(exp)?;
        let mut fields: Vec<(String, String)> = Vec::new();
        fields.push(string_field("ClusterId", self.cluster_id.as_str()));
        if desc.unicode_len() != 0 {
            fields.push(string_field("description", desc));
        }
        if let Some(e) = exp {
            fields.push(int_field("expiration", e));
        }
        fields.push(string_field("name", name));
        let body = json_object_text(&fields);
        assert(fields_view(fields@) =~= create_tunnel_fields(name@, desc@, self.cluster_id@, exp));
        Ok(ApiRequest { method: HttpMethod::Post, url: self.url("/tunnels"), body: Some(body) })
    }

    /// `PUT /tunnels/{id}` with the given fields.
    pub fn update_tunnel(&self, id: &str, name: Option<&str>, desc: Option<&str>, exp: Option<i32>) -> (r:
        Result<ApiRequest, RequestError>)
        ensures
            !valid_tunnel_id_spec(id@) ==> is_tunnel_id_rejection(r, id@),
            valid_tunnel_id_spec(id@) && (name matches Some(n) && !valid_name_spec(n@)) ==> is_error(
                r,
                RequestError::InvalidName,
            ),
            valid_tunnel_id_spec(id@) && (name matches Some(n) ==> valid_name_spec(n@)) && (
            exp matches Some(v) && !valid_expiration_spec(v)) ==> is_error(
                r,
                RequestError::InvalidExpiration,
            ),
            valid_tunnel_id_spec(id@) && (name matches Some(n) ==> valid_name_spec(n@)) && (
            exp matches Some(v) ==> valid_expiration_spec(v)) ==> is_ok_request::<RequestError>(
                r,
                HttpMethod::Put,
                self.base@ + "/tunnels/"@ + id@,
                Some(json_object(update_tunnel_fields(opt_str(name), opt_str(desc), exp))),
            ),
    {
        validate_tunnel_id(id)?;
        if let Some(v) = name {
            validate_name(v)?;
        }
        validate_expiration(exp)?;
        let mut fields: Vec<(String, String)> = Vec::new();
        if let Some(d) = desc {
            fields.push(string_field("description", d));
        }
        if let Some(e) = exp {
            fields.push(int_field("expiration", e));
        }
        if let Some(n) = name {
            fields.push(string_field("name", n));
        }
        let body = json_object_text(&fields);
        assert(fields_view(fields@) =~= update_tunnel_fields(opt_str(name), opt_str(desc), exp));
        let url = self.tunnel_url(id, "");
        proof {
            lemma_empty_literal();
        }
        assert(url@ =~= self.base@ + "/tunnels/"@ + id@);
        Ok(ApiRequest { method: HttpMethod::Put, url, body: Some(body) })
    }

    /// `DELETE /tunnels/{id}`.
    pub fn delete_tunnel(&self, id: &str) -> (r: Result<ApiRequest, RequestError>)
        ensures
            valid_tunnel_id_spec(id@) ==> is_ok_request::<RequestError>(r, HttpMethod::Delete, self.base@ + "/tunnels/"@ + id@, None),
            !valid_tunnel_id_spec(id@) ==> is_tunnel_id_rejection(r, id@),
    {
        validate_tunnel_id(id)?;
        let url = self.tunnel_url(id, "");
        proof {
            lemma_empty_literal();
        }
        assert(url@ =~= self.base@ + "/tunnels/"@ + id@);
        Ok(ApiRequest { method: HttpMethod::Delete, url, body: None })
    }

    /// `DELETE /tunnels`.
    pub fn delete_all_tunnels(&self) -> (r: ApiRequest)
        ensures
            r.method == HttpMethod::Delete && r.url@ == self.base@ + "/tunnels"@ && r.body is None,
    {
        ApiRequest { method: HttpMethod::Delete, url: self.url("/tunnels"), body: None }
    }

    /// `POST /tunnels/{id}/token?scope={scope}` with a JSON `null` body, for
    /// the scopes `host` and `connect`.
    pub fn token(&self, id: &str, scope: &str) -> (r: Result<ApiRequest, RequestError>)
        ensures
            !valid_tunnel_id_spec(id@) ==> is_tunnel_id_rejection(r, id@),
            valid_tunnel_id_spec(id@) && !(scope@ == "host"@ || scope@ == "connect"@) ==> is_error(
                r,
                RequestError::InvalidScope,
            ),
            valid_tunnel_id_spec(id@) && (scope@ == "host"@ || scope@ == "connect"@) ==> is_ok_request::<RequestError>(
                r,
                HttpMethod::Post,
                self.base@ + "/tunnels/"@ + id@ + "/token?scope="@ + scope@,
                Some(json_null()),
            ),
    {
        validate_tunnel_id(id)?;
        if !str_eq(scope, "host") && !str_eq(scope, "connect") {
            return Err(RequestError::InvalidScope);
        }
        let mut url = self.tunnel_url(id, "/token?scope=");
        push_str(&mut url, scope);
        Ok(ApiRequest { method: HttpMethod::Post, url, body: Some(null_text()) })
    }

    /// `GET /tunnels/{id}/ports`.
    pub fn list_ports(&self, id: &str) -> (r: Result<ApiRequest, RequestError>)
        ensures
            valid_tunnel_id_spec(id@) ==> is_ok_request::<RequestError>(
                r,
                HttpMethod::Get,
                self.base@ + "/tunnels/"@ + id@ + "/ports"@,
                None,
            ),
            !valid_tunnel_id_spec(id@) ==> is_tunnel_id_rejection(r, id@),
    {
        validate_tunnel_id(id)?;
        Ok(ApiRequest { method: HttpMethod::Get, url: self.tunnel_url(id, "/ports"), body: None })
    }

    /// `GET /tunnels/{id}/ports/{port}`; only the port is checked.
    pub fn show_port(&self, id: &str, port: i32) -> (r: Result<ApiRequest, RequestError>)
        ensures
            !valid_port_spec(port) ==> is_error(r, RequestError::InvalidPort { port }),
            valid_port_spec(port) ==> is_ok_request::<RequestError>(r, HttpMethod::Get, self.base@ + port_path(id@, port), None),
    {
        validate_port(port)?;
        Ok(ApiRequest { method: HttpMethod::Get, url: self.port_url(id, port), body: None })
    }

    /// `POST /tunnels/{id}/ports` with the port, protocol and anonymous
    /// access.
    pub fn create_port(&self, id: &str, port: i32, protocol: &str, allow: bool) -> (r: Result<
        ApiRequest,
        RequestError,
    >)
        ensures
            !valid_tunnel_id_spec(id@) ==> is_tunnel_id_rejection(r, id@),
            valid_tunnel_id_spec(id@) && !valid_port_spec(port) ==> is_error(
                r,
                RequestError::InvalidPort { port },
            ),
            valid_tunnel_id_spec(id@) && valid_port_spec(port) && !valid_protocol_spec(protocol@)
                ==> is_error(r, RequestError::InvalidProtocol),
            valid_tunnel_id_spec(id@) && valid_port_spec(port) && valid_protocol_spec(protocol@)
                ==> is_ok_request::<RequestError>(
                r,
                HttpMethod::Post,
                self.base@ + "/tunnels/"@ + id@ + "/ports"@,
                Some(
                    json_object(
                        seq![
                            ("allowAnonymous"@, json_bool(allow)),
                            ("port"@, json_int(port as int)),
                            ("protocol"@, json_quoted(protocol@)),
                        ],
                    ),
                ),
            ),
    {
        validate_tunnel_id(id)?;
        validate_port(port)?;
        validate_protocol(protocol)?;
        let mut fields: Vec<(String, String)> = Vec::new();
        fields.push(bool_field("allowAnonymous", allow));
        fields.push(int_field("port", port));
        fields.push(string_field("protocol", protocol));
        let body = json_object_text(&fields);
        assert(fields_view(fields@) =~= seq![
            ("allowAnonymous"@, json_bool(allow)),
            ("port"@, json_int(port as int)),
            ("protocol"@, json_quoted(protocol@)),
        ]);
        Ok(ApiRequest { method: HttpMethod::Post, url: self.tunnel_url(id, "/ports"), body: Some(body) })
    }

    /// `PUT /tunnels/{id}/ports/{port}` setting anonymous access.
    pub fn update_port(&self, id: &str, port: i32, allow: bool) -> (r: Result<ApiRequest, RequestError>)
        ensures
            !valid_tunnel_id_spec(id@) ==> is_tunnel_id_rejection(r, id@),
            valid_tunnel_id_spec(id@) && !valid_port_spec(port) ==> is_error(
                r,
                RequestError::InvalidPort { port },
            ),
            valid_tunnel_id_spec(id@) && valid_port_spec(port) ==> is_ok_request::<RequestError>(
                r,
                HttpMethod::Put,
                self.base@ + port_path(id@, port),
                Some(json_object(seq![("allowAnonymous"@, json_bool(allow))])),
            ),
    {
        validate_tunnel_id(id)?;
        validate_port(port)?;
        let mut fields: Vec<(String, String)> = Vec::new();
        fields.push(bool_field("allowAnonymous", allow));
        let body = json_object_text(&fields);
        assert(fields_view(fields@) =~= seq![("allowAnonymous"@, json_bool(allow))]);
        Ok(ApiRequest { method: HttpMethod::Put, url: self.port_url(id, port), body: Some(body) })
    }

    /// `DELETE /tunnels/{id}/ports/{port}`.
    pub fn delete_port(&self, id: &str, port: i32) -> (r: Result<ApiRequest, RequestError>)
        ensures
            !valid_tunnel_id_spec(id@) ==> is_tunnel_id_rejection(r, id@),
            valid_tunnel_id_spec(id@) && !valid_port_spec(port) ==> is_error(
                r,
                RequestError::InvalidPort { port },
            ),
            valid_tunnel_id_spec(id@) && valid_port_spec(port) ==> is_ok_request::<RequestError>(
                r,
                HttpMethod::Delete,
                self.base@ + port_path(id@, port),
                None,
            ),
    {
        validate_tunnel_id(id)?;
        validate_port(port)?;
        Ok(ApiRequest { method: HttpMethod::Delete, url: self.port_url(id, port), body: None })
    }
}

} // verus!
