//! The DevBridge REST API: input validation, the request each operation
//! sends, the response records, and how failed responses are reported.
use vstd::prelude::*;
use crate::control::settings::{api_base_url_spec, Settings};
use crate::http::{
    bool_field, fields_view, int_field, json_bool, json_int, json_null, json_object,
    json_object_text, json_quoted, null_text, string_field, ApiRequest, HttpMethod,
};
use crate::text::{chars_of, debug_quoted, debug_text, lemma_empty_literal, decimal, is_ascii_alnum, owned, push_decimal, push_signed_decimal, push_str, signed_decimal, str_eq};

verus! {

/// The port number that stands for every port of a tunnel.
pub const ALL_PORTS: i32 = -1;

/// The API error code of an unknown tunnel.
pub const TUNNEL_NOT_FOUND_CODE: &'static str = "10002";

/// An error reported by the API in its error envelope.
#[derive(Debug, Clone)]
pub struct ApiError {
    pub code: String,
    pub message: String,
}

impl ApiError {
    /// `error code: {code}, error message: {message}`.
    pub fn message_text(&self) -> (r: String)
        ensures
            r@ == "error code: "@ + self.code@ + ", error message: "@ + self.message@,
    {
        let mut s = owned("error code: ");
        push_str(&mut s, self.code.as_str());
        push_str(&mut s, ", error message: ");
        push_str(&mut s, self.message.as_str());
        s
    }
}

/// A request rejected before it is sent.
#[derive(Debug, Clone)]
pub enum RequestError {
    /// Not 8 characters from `a`-`z` and `2`-`7`.
    InvalidTunnelId { tunnel_id: String },
    /// Neither `1..=65535` nor `ALL_PORTS`.
    InvalidPort { port: i32 },
    /// Not `http`, `https`, `auto` or empty.
    InvalidProtocol { protocol: String },
    /// Not within `1..=720` hours.
    InvalidExpiration,
    /// A tunnel name of no characters or of more than 64.
    NameLength,
    /// A tunnel name that starts or ends with a character other than a
    /// letter, digit or Chinese character.
    NameEdge,
    /// A tunnel name with a character other than a letter, digit, Chinese
    /// character or `-`.
    NameCharacters,
    /// A description of more than 64 characters, or with a character other
    /// than a letter, digit or Chinese character.
    InvalidDescription,
    /// A token scope other than `host` or `connect`.
    InvalidScope { scope: String },
}

impl RequestError {
    /// The text of the error.
    pub fn message_text(&self) -> (r: String)
        ensures
            r@ == match self {
                RequestError::InvalidTunnelId { tunnel_id } => "invalid tunnel id "@ + debug_text(
                    tunnel_id@,
                ) + ": expected 8 lowercase letters/base32 digits 2-7"@,
                RequestError::InvalidPort { port } => "invalid port "@ + signed_decimal(*port as int)
                    + ": expected 1-65535 or -1 for all URL ports"@,
                RequestError::InvalidProtocol { protocol } => "invalid protocol "@ + debug_text(
                    protocol@,
                ) + ": expected http, https or auto"@,
                RequestError::InvalidExpiration => "expiration must be between 1 and 720 hours"@,
                RequestError::NameLength => "tunnel name must contain 1-64 characters"@,
                RequestError::NameEdge => "tunnel name must start and end with a Chinese character, letter or digit"@,
                RequestError::NameCharacters => "tunnel name contains unsupported characters"@,
                RequestError::InvalidDescription => "description supports up to 64 Chinese characters, letters or digits"@,
                RequestError::InvalidScope { .. } => "scope must be one of: host, connect"@,
            },
    {
        match self {
            RequestError::InvalidTunnelId { tunnel_id } => {
                let mut s = owned("invalid tunnel id ");
                let q = debug_quoted(tunnel_id.as_str());
                push_str(&mut s, q.as_str());
                push_str(&mut s, ": expected 8 lowercase letters/base32 digits 2-7");
                s
            },
            RequestError::InvalidPort { port } => {
                let mut s = owned("invalid port ");
                push_signed_decimal(&mut s, *port as i64);
                push_str(&mut s, ": expected 1-65535 or -1 for all URL ports");
                s
            },
            RequestError::InvalidProtocol { protocol } => {
                let mut s = owned("invalid protocol ");
                let q = debug_quoted(protocol.as_str());
                push_str(&mut s, q.as_str());
                push_str(&mut s, ": expected http, https or auto");
                s
            },
            RequestError::InvalidExpiration => owned("expiration must be between 1 and 720 hours"),
            RequestError::NameLength => owned("tunnel name must contain 1-64 characters"),
            RequestError::NameEdge => owned(
                "tunnel name must start and end with a Chinese character, letter or digit",
            ),
            RequestError::NameCharacters => owned("tunnel name contains unsupported characters"),
            RequestError::InvalidDescription => owned(
                "description supports up to 64 Chinese characters, letters or digits",
            ),
            RequestError::InvalidScope { .. } => owned("scope must be one of: host, connect"),
        }
    }
}

/// How a failed API response is reported.
#[derive(Debug, Clone)]
pub enum ApiFailure {
    /// The response carried an error envelope.
    Api(ApiError),
    /// Any other failure: the HTTP status and the body text.
    Http { status: u16, body: String },
}

impl ApiFailure {
    /// The text of the failure.
    pub fn message_text(&self) -> (r: String)
        ensures
            r@ == match self {
                ApiFailure::Api(e) => "error code: "@ + e.code@ + ", error message: "@ + e.message@,
                ApiFailure::Http { status, body } => "DevBridge API request failed: HTTP "@
                    + decimal(*status as nat) + ": "@ + body@,
            },
    {
        match self {
            ApiFailure::Api(e) => e.message_text(),
            ApiFailure::Http { status, body } => {
                let mut s = owned("DevBridge API request failed: HTTP ");
                push_decimal(&mut s, *status as u64);
                push_str(&mut s, ": ");
                push_str(&mut s, body.as_str());
                s
            },
        }
    }
}

/// A lower-case letter or a base32 digit `2`-`7`.
pub open spec fn is_tunnel_id_char(c: char) -> bool {
    ('a' <= c && c <= 'z') || ('2' <= c && c <= '7')
}

/// Tunnel ids are 8 characters from `a`-`z` and `2`-`7`.
pub open spec fn valid_tunnel_id_spec(id: Seq<char>) -> bool {
    id.len() == 8 && forall|i: int| 0 <= i < id.len() ==> is_tunnel_id_char(#[trigger] id[i])
}

/// A port of `1..=65535`, or `ALL_PORTS`.
pub open spec fn valid_port_spec(port: i32) -> bool {
    port == ALL_PORTS || (1 <= port && port <= 65535)
}

/// `http`, `https`, `auto`, or empty for the server's default.
pub open spec fn valid_protocol_spec(protocol: Seq<char>) -> bool {
    protocol == "http"@ || protocol == "https"@ || protocol == "auto"@ || protocol.len() == 0
}

/// Expirations are `1..=720` hours.
pub open spec fn valid_expiration_spec(expiration: i32) -> bool {
    1 <= expiration && expiration <= 720
}

/// Letters, digits and the Chinese characters `U+4E00..=U+9FA5`.
pub open spec fn allowed_name_char(c: char) -> bool {
    is_ascii_alnum(c) || ('\u{4e00}' <= c && c <= '\u{9fa5}')
}

/// The first rule that a tunnel name breaks, if any.
pub open spec fn tunnel_name_error(name: Seq<char>) -> Option<RequestError> {
    if name.len() == 0 || name.len() > 64 {
        Some(RequestError::NameLength)
    } else if !allowed_name_char(name[0]) || !allowed_name_char(name.last()) {
        Some(RequestError::NameEdge)
    } else if !(forall|i: int| 0 <= i < name.len() ==> allowed_name_char(#[trigger] name[i]) || name[i] == '-') {
        Some(RequestError::NameCharacters)
    } else {
        None
    }
}

/// Descriptions have at most 64 characters, all allowed in names but `-`.
pub open spec fn valid_description_spec(description: Seq<char>) -> bool {
    description.len() <= 64 && forall|i: int| 0 <= i < description.len() ==> allowed_name_char(
        #[trigger] description[i],
    )
}

/// `e` rejects the tunnel id `id`.
pub open spec fn rejects_tunnel_id(e: RequestError, id: Seq<char>) -> bool {
    e matches RequestError::InvalidTunnelId { tunnel_id } && tunnel_id@ == id
}

/// `r` is the request `(method, url, body)`.
pub open spec fn is_request(r: ApiRequest, method: HttpMethod, url: Seq<char>, body: Option<Seq<char>>) -> bool {
    &&& r.method == method
    &&& r.url@ == url
    &&& match body {
        None => r.body is None,
        Some(b) => r.body is Some && r.body.unwrap()@ == b,
    }
}

/// `r` is the request `(method, url, body)`.
pub open spec fn is_ok_request<E>(
    r: Result<ApiRequest, E>,
    method: HttpMethod,
    url: Seq<char>,
    body: Option<Seq<char>>,
) -> bool {
    r matches Ok(req) && is_request(req, method, url, body)
}

/// `r` rejects the tunnel id `id`.
pub open spec fn is_tunnel_id_rejection(r: Result<ApiRequest, RequestError>, id: Seq<char>) -> bool {
    r matches Err(e) && rejects_tunnel_id(e, id)
}

/// `r` rejects the token scope `scope`.
pub open spec fn is_scope_rejection(r: Result<ApiRequest, RequestError>, scope: Seq<char>) -> bool {
    r matches Err(e) && e matches RequestError::InvalidScope { scope: s } && s@ == scope
}

/// `r` rejects the protocol `protocol`.
pub open spec fn is_protocol_rejection(r: Result<ApiRequest, RequestError>, protocol: Seq<char>) -> bool {
    r matches Err(e) && e matches RequestError::InvalidProtocol { protocol: p } && p@ == protocol
}

/// Law: a name is accepted exactly when it has 1 to 64 characters, each a
/// letter, digit, Chinese character or `-`, and neither the first nor the
/// last is `-`; the length is judged first, then the ends. Every valid
/// tunnel id, and every non-empty valid description, is an acceptable name.
pub proof fn lemma_tunnel_name_rules(name: Seq<char>)
    ensures
        tunnel_name_error(name) is None <==> (1 <= name.len() <= 64 && (forall|i: int|
            0 <= i < name.len() ==> allowed_name_char(#[trigger] name[i]) || name[i] == '-')
            && name[0] != '-' && name.last() != '-'),
        (name.len() == 0 || name.len() > 64) ==> tunnel_name_error(name) == Some(RequestError::NameLength),
        (1 <= name.len() <= 64 && (name[0] == '-' || name.last() == '-')) ==> tunnel_name_error(name)
            == Some(RequestError::NameEdge),
        valid_tunnel_id_spec(name) ==> tunnel_name_error(name) is None,
        valid_description_spec(name) && name.len() > 0 ==> tunnel_name_error(name) is None,
{
    if 1 <= name.len() <= 64 {
        assert(name.last() == name[name.len() - 1]);
        if (forall|i: int| 0 <= i < name.len() ==> allowed_name_char(#[trigger] name[i]) || name[i] == '-')
            && name[0] != '-' && name.last() != '-' {
            assert(allowed_name_char(name[0]) || name[0] == '-');
            assert(allowed_name_char(name[name.len() - 1]) || name[name.len() - 1] == '-');
        }
    }
    if valid_tunnel_id_spec(name) {
        assert(is_tunnel_id_char(name[0]));
        assert(is_tunnel_id_char(name[7]));
        assert(forall|i: int| 0 <= i < name.len() ==> allowed_name_char(#[trigger] name[i]) || name[i] == '-') by {
            assert forall|i: int| 0 <= i < name.len() implies allowed_name_char(#[trigger] name[i]) || name[i] == '-' by {
                assert(is_tunnel_id_char(name[i]));
            }
        }
    }
}

/// The body of a tunnel creation: name, description when not empty,
/// cluster, and expiration when given.
pub open spec fn create_tunnel_fields(
    name: Seq<char>,
    description: Seq<char>,
    cluster_id: Seq<char>,
    expiration: Option<i32>,
) -> Seq<(Seq<char>, Seq<char>)> {
    let a = seq![("name"@, json_quoted(name))];
    let b = if description.len() == 0 {
        a
    } else {
        a.push(("description"@, json_quoted(description)))
    };
    let c = b.push(("ClusterId"@, json_quoted(cluster_id)));
    match expiration {
        None => c,
        Some(e) => c.push(("expiration"@, json_int(e as int))),
    }
}

/// The body of a tunnel update: only the given fields.
pub open spec fn update_tunnel_fields(
    name: Option<Seq<char>>,
    description: Option<Seq<char>>,
    expiration: Option<i32>,
) -> Seq<(Seq<char>, Seq<char>)> {
    let a = match name {
        None => Seq::empty(),
        Some(n) => seq![("name"@, json_quoted(n))],
    };
    let b = match description {
        None => a,
        Some(d) => a.push(("description"@, json_quoted(d))),
    };
    match expiration {
        None => b,
        Some(e) => b.push(("expiration"@, json_int(e as int))),
    }
}

/// Law: an update sends exactly the fields it was given: a member for each
/// given name, description and expiration, carrying the given value, and no
/// member for a field left out; the expiration, when given, comes last.
pub proof fn lemma_update_tunnel_fields(
    name: Option<Seq<char>>,
    description: Option<Seq<char>>,
    expiration: Option<i32>,
)
    ensures
        ({
            let f = update_tunnel_fields(name, description, expiration);
            &&& f.len() == (if name is Some { 1int } else { 0int }) + (if description is Some { 1int } else { 0int })
                + (if expiration is Some { 1int } else { 0int })
            &&& forall|i: int| 0 <= i < f.len() ==> (#[trigger] f[i].0 == "name"@ || f[i].0 == "description"@
                || f[i].0 == "expiration"@)
            &&& forall|i: int| 0 <= i < f.len() && #[trigger] f[i].0 == "name"@ ==> name is Some && f[i].1
                == json_quoted(name.unwrap())
            &&& forall|i: int| 0 <= i < f.len() && #[trigger] f[i].0 == "description"@ ==> description is Some
                && f[i].1 == json_quoted(description.unwrap())
            &&& forall|i: int| 0 <= i < f.len() && #[trigger] f[i].0 == "expiration"@ ==> expiration is Some
                && f[i].1 == signed_decimal(expiration.unwrap() as int)
            &&& expiration matches Some(e) ==> f.last() == ("expiration"@, signed_decimal(e as int))
            &&& name matches Some(n) ==> f[0] == ("name"@, json_quoted(n))
        }),
{
    reveal_strlit("name");
    reveal_strlit("description");
    reveal_strlit("expiration");
    let f = update_tunnel_fields(name, description, expiration);
    assert forall|i: int| 0 <= i < f.len() && #[trigger] f[i].0 == "name"@ implies name is Some && f[i].1
        == json_quoted(name.unwrap()) by {
        if name is None || i > 0 {
            assert(f[i].0.len() != 4);
        }
    }
    assert forall|i: int| 0 <= i < f.len() && #[trigger] f[i].0 == "description"@ implies description is Some
        && f[i].1 == json_quoted(description.unwrap()) by {
        assert(f[i].0.len() == 11);
    }
    assert forall|i: int| 0 <= i < f.len() && #[trigger] f[i].0 == "expiration"@ implies expiration is Some
        && f[i].1 == signed_decimal(expiration.unwrap() as int) by {
        assert(f[i].0.len() == 10);
    }
}

/// Law: a creation sends the name, the description only when not empty,
/// the cluster, and the expiration only when given, each with its value.
pub proof fn lemma_create_tunnel_fields(
    name: Seq<char>,
    description: Seq<char>,
    cluster_id: Seq<char>,
    expiration: Option<i32>,
)
    ensures
        ({
            let f = create_tunnel_fields(name, description, cluster_id, expiration);
            &&& f[0] == ("name"@, json_quoted(name))
            &&& (exists|i: int| 0 <= i < f.len() && #[trigger] f[i].0 == "description"@) <==> description.len()
                > 0
            &&& forall|i: int| 0 <= i < f.len() && #[trigger] f[i].0 == "description"@ ==> f[i].1 == json_quoted(
                description,
            )
            &&& exists|i: int| 0 <= i < f.len() && #[trigger] f[i] == ("ClusterId"@, json_quoted(cluster_id))
            &&& (exists|i: int| 0 <= i < f.len() && #[trigger] f[i].0 == "expiration"@) <==> expiration is Some
            &&& expiration matches Some(e) ==> f.last() == ("expiration"@, signed_decimal(e as int))
        }),
{
    reveal_strlit("name");
    reveal_strlit("description");
    reveal_strlit("ClusterId");
    reveal_strlit("expiration");
    let f = create_tunnel_fields(name, description, cluster_id, expiration);
    if description.len() > 0 {
        assert(f[1].0 == "description"@);
    }
    let k = if description.len() > 0 { 2int } else { 1int };
    assert(f[k] == ("ClusterId"@, json_quoted(cluster_id)));
    if expiration is Some {
        assert(f[f.len() - 1].0 == "expiration"@);
    }
    assert forall|i: int| 0 <= i < f.len() && #[trigger] f[i].0 == "description"@ implies description.len() > 0
        && f[i].1 == json_quoted(description) by {
        assert(f[i].0.len() == 11);
    }
    assert forall|i: int| 0 <= i < f.len() && #[trigger] f[i].0 == "expiration"@ implies expiration is Some by {
        assert(f[i].0.len() == 10);
    }
}

/// The spec view of an optional string slice.
pub open spec fn opt_str(s: Option<&str>) -> Option<Seq<char>> {
    match s {
        Some(v) => Some(v@),
        None => None,
    }
}

/// The path of one port of a tunnel.
pub open spec fn port_path(tunnel_id: Seq<char>, port: i32) -> Seq<char> {
    "/tunnels/"@ + tunnel_id + "/ports/"@ + signed_decimal(port as int)
}

/// Accepts tunnel ids of 8 characters from `a`-`z` and `2`-`7`.
pub fn validate_tunnel_id(tunnel_id: &str) -> (r: Result<(), RequestError>)
    ensures
        r is Ok <==> valid_tunnel_id_spec(tunnel_id@),
        r matches Err(e) ==> rejects_tunnel_id(e, tunnel_id@),
{
    let cs = chars_of(tunnel_id);
    let mut ok = cs.len() == 8;
    let mut i: usize = 0;
    while ok && i < cs.len()
        invariant
            cs@ == tunnel_id@,
            i <= cs@.len(),
            ok ==> cs@.len() == 8,
            ok ==> forall|j: int| 0 <= j < i ==> is_tunnel_id_char(#[trigger] cs@[j]),
            !ok ==> !valid_tunnel_id_spec(tunnel_id@),
        decreases cs@.len() - i,
    {
        let c = cs[i];
        if !(('a' <= c && c <= 'z') || ('2' <= c && c <= '7')) {
            ok = false;
        }
        i = i + 1;
    }
    if ok {
        Ok(())
    } else {
        Err(RequestError::InvalidTunnelId { tunnel_id: owned(tunnel_id) })
    }
}

/// Accepts ports `1..=65535` and `ALL_PORTS`.
pub fn validate_port(port: i32) -> (r: Result<(), RequestError>)
    ensures
        r is Ok <==> valid_port_spec(port),
        r matches Err(e) ==> e == (RequestError::InvalidPort { port }),
{
    if port == ALL_PORTS || (1 <= port && port <= 65535) {
        Ok(())
    } else {
        Err(RequestError::InvalidPort { port })
    }
}

fn validate_protocol(protocol: &str) -> (r: Result<(), RequestError>)
    ensures
        r is Ok <==> valid_protocol_spec(protocol@),
        r matches Err(e) ==> e matches RequestError::InvalidProtocol { protocol: p } && p@ == protocol@,
{
    proof {
        lemma_empty_literal();
        if protocol@.len() == 0 {
            assert(protocol@ =~= ""@);
        }
    }
    if str_eq(protocol, "http") || str_eq(protocol, "https") || str_eq(protocol, "auto") || str_eq(
        protocol,
        "",
    ) {
        Ok(())
    } else {
        Err(RequestError::InvalidProtocol { protocol: owned(protocol) })
    }
}

fn validate_expiration(expiration: i32) -> (r: Result<(), RequestError>)
    ensures
        r is Ok <==> valid_expiration_spec(expiration),
        r matches Err(e) ==> e == RequestError::InvalidExpiration,
{
    if 1 <= expiration && expiration <= 720 {
        Ok(())
    } else {
        Err(RequestError::InvalidExpiration)
    }
}

fn allowed_name_edge(value: char) -> (r: bool)
    ensures
        r == allowed_name_char(value),
{
    ('a' <= value && value <= 'z') || ('A' <= value && value <= 'Z') || ('0' <= value && value
        <= '9') || ('\u{4e00}' <= value && value <= '\u{9fa5}')
}

fn validate_tunnel_name(name: &str) -> (r: Result<(), RequestError>)
    ensures
        match tunnel_name_error(name@) {
            None => r is Ok,
            Some(e) => r == Err::<(), RequestError>(e),
        },
{
    let chars = chars_of(name);
    if chars.len() == 0 || chars.len() > 64 {
        return Err(RequestError::NameLength);
    }
    if !allowed_name_edge(chars[0]) || !allowed_name_edge(chars[chars.len() - 1]) {
        return Err(RequestError::NameEdge);
    }
    let mut i: usize = 0;
    while i < chars.len()
        invariant
            chars@ == name@,
            i <= chars@.len(),
            1 <= chars@.len() <= 64,
            allowed_name_char(chars@[0]),
            allowed_name_char(chars@.last()),
            forall|j: int| 0 <= j < i ==> allowed_name_char(#[trigger] chars@[j]) || chars@[j] == '-',
        decreases chars@.len() - i,
    {
        if !(allowed_name_edge(chars[i]) || chars[i] == '-') {
            assert(!(allowed_name_char(name@[i as int]) || name@[i as int] == '-'));
            return Err(RequestError::NameCharacters);
        }
        i = i + 1;
    }
    Ok(())
}

fn validate_tunnel_description(description: &str) -> (r: Result<(), RequestError>)
    ensures
        r is Ok <==> valid_description_spec(description@),
        r matches Err(e) ==> e == RequestError::InvalidDescription,
{
    let chars = chars_of(description);
    if chars.len() > 64 {
        return Err(RequestError::InvalidDescription);
    }
    let mut i: usize = 0;
    while i < chars.len()
        invariant
            chars@ == description@,
            i <= chars@.len(),
            forall|j: int| 0 <= j < i ==> allowed_name_char(#[trigger] chars@[j]),
        decreases chars@.len() - i,
    {
        if !allowed_name_edge(chars[i]) {
            return Err(RequestError::InvalidDescription);
        }
        i = i + 1;
    }
    Ok(())
}

/// How a failed response with `status` and `body` is reported; `envelope`
/// is the `{"error": {"code", "message"}}` envelope when the body holds one.
pub fn parse_api_error(status: u16, body: &str, envelope: Option<ApiError>) -> (r: ApiFailure)
    ensures
        match envelope {
            Some(e) => r == ApiFailure::Api(e),
            None => r matches ApiFailure::Http { status: s, body: b } && s == status && b@ == body@,
        },
{
    match envelope {
        Some(e) => ApiFailure::Api(e),
        None => ApiFailure::Http { status, body: owned(body) },
    }
}

/// The tunnel as the API lists it.
#[derive(Debug, Clone)]
pub struct ListTunnelResult {
    pub name: String,
    pub tunnel_id: String,
    pub tunnel_expiration: u32,
    pub description: String,
    pub port_count: i32,
}

/// A newly created tunnel.
#[derive(Debug, Clone)]
pub struct CreateTunnelResult {
    pub tunnel_id: String,
    pub name: String,
    pub description: String,
    pub expiration_hours: i32,
}

/// Connection and traffic counters of a tunnel.
#[derive(Debug, Clone, Default)]
pub struct TunnelStatus {
    pub client_connection_count: i32,
    pub host_connection_count: i32,
    pub total_upload_bytes: i64,
    pub total_download_bytes: i64,
}

/// One tunnel with its status.
#[derive(Debug, Clone)]
pub struct ShowTunnelResult {
    pub name: String,
    pub tunnel_id: String,
    pub tunnel_expiration: u32,
    pub description: String,
    pub status: Option<TunnelStatus>,
}

/// A scoped access token of a tunnel.
#[derive(Debug, Clone)]
pub struct TunnelTokenResult {
    pub tunnel_id: String,
    pub scope: String,
    pub token: String,
}

/// One port of a tunnel.
#[derive(Debug, Clone)]
pub struct PortResult {
    pub port: i32,
    pub protocol: String,
    pub allow_anonymous: bool,
    pub tunnel_id: String,
}

/// The account's quotas and limits.
#[derive(Debug, Clone)]
pub struct LimitsResult {
    pub reset_at: i64,
    pub quota_bytes: i64,
    pub remaining_bytes: i64,
    pub active_tunnels: i64,
    pub max_tunnels: i32,
    pub max_ports_per_tunnel: i32,
    pub max_hosts_per_tunnel: i32,
    pub max_tunnel_bandwidth_bytes_per_second: i64,
    pub max_http_requests_per_minute_per_port: i32,
    pub max_connections_per_port: i32,
}

/// The API client's endpoint and credentials; every request carries the
/// key in `X-API-Key` and `content-type: application/json`.
#[derive(Debug, Clone)]
pub struct ApiClient {
    pub base_url: String,
    pub api_key: String,
    pub cluster_id: String,
}

impl ApiClient {
    /// A client for the settings' API root and cluster, with a resolved key.
    pub fn from_settings(settings: &Settings, api_key: String) -> (r: ApiClient)
        ensures
            r.base_url@ == api_base_url_spec(settings.server_domain@),
            r.api_key == api_key,
            r.cluster_id@ == settings.cluster_id@,
    {
        ApiClient {
            base_url: settings.api_base_url(),
            api_key,
            cluster_id: settings.cluster_id.clone(),
        }
    }

    fn url(&self, path: &str) -> (r: String)
        ensures
            r@ == self.base_url@ + path@,
    {
        let mut s = self.base_url.clone();
        push_str(&mut s, path);
        s
    }

    fn tunnel_url(&self, tunnel_id: &str, tail: &str) -> (r: String)
        ensures
            r@ == self.base_url@ + "/tunnels/"@ + tunnel_id@ + tail@,
    {
        let mut s = self.base_url.clone();
        push_str(&mut s, "/tunnels/");
        push_str(&mut s, tunnel_id);
        push_str(&mut s, tail);
        s
    }

    fn port_url(&self, tunnel_id: &str, port: i32) -> (r: String)
        ensures
            r@ == self.base_url@ + port_path(tunnel_id@, port),
    {
        let mut s = self.tunnel_url(tunnel_id, "/ports/");
        push_signed_decimal(&mut s, port as i64);
        assert(s@ =~= self.base_url@ + port_path(tunnel_id@, port));
        s
    }

    /// `GET /tunnels`.
    pub fn list_tunnels(&self) -> (r: ApiRequest)
        ensures
            is_request(r, HttpMethod::Get, self.base_url@ + "/tunnels"@, None),
    {
        ApiRequest { method: HttpMethod::Get, url: self.url("/tunnels"), body: None }
    }

    /// `POST /tunnels` with a validated name, description and expiration.
    pub fn create_tunnel(&self, name: &str, description: &str, expiration: Option<i32>) -> (r:
        Result<ApiRequest, RequestError>)
        ensures
            tunnel_name_error(name@) is Some ==> r == Err::<ApiRequest, RequestError>(
                tunnel_name_error(name@).unwrap(),
            ),
            tunnel_name_error(name@) is None && !valid_description_spec(description@) ==> r
                == Err::<ApiRequest, RequestError>(RequestError::InvalidDescription),
            tunnel_name_error(name@) is None && valid_description_spec(description@) && (
            expiration matches Some(e) && !valid_expiration_spec(e)) ==> r == Err::<
                ApiRequest,
                RequestError,
            >(RequestError::InvalidExpiration),
            tunnel_name_error(name@) is None && valid_description_spec(description@) && (
            expiration matches Some(e) ==> valid_expiration_spec(e)) ==> is_ok_request(r,
                HttpMethod::Post,
                self.base_url@ + "/tunnels"@,
                Some(
                    json_object(
                        create_tunnel_fields(name@, description@, self.cluster_id@, expiration),
                    ),
                ),
            ),
    {
        validate_tunnel_name(name)?;
        validate_tunnel_description(description)?;
        if let Some(e) = expiration {
            validate_expiration(e)?;
        }
        let mut fields: Vec<(String, String)> = Vec::new();
        fields.push(string_field("name", name));
        if description.unicode_len() != 0 {
            fields.push(string_field("description", description));
        }
        fields.push(string_field("ClusterId", self.cluster_id.as_str()));
        if let Some(e) = expiration {
            fields.push(int_field("expiration", e));
        }
        let body = json_object_text(&fields);
        assert(fields_view(fields@) =~= create_tunnel_fields(
            name@,
            description@,
            self.cluster_id@,
            expiration,
        ));
        Ok(ApiRequest { method: HttpMethod::Post, url: self.url("/tunnels"), body: Some(body) })
    }

    /// `GET /tunnels/{id}`.
    pub fn show_tunnel(&self, tunnel_id: &str) -> (r: Result<ApiRequest, RequestError>)
        ensures
            valid_tunnel_id_spec(tunnel_id@) ==> is_ok_request(r,
                HttpMethod::Get,
                self.base_url@ + "/tunnels/"@ + tunnel_id@,
                None,
            ),
            !valid_tunnel_id_spec(tunnel_id@) ==> is_tunnel_id_rejection(r, tunnel_id@),
    {
        validate_tunnel_id(tunnel_id)?;
        let url = self.tunnel_url(tunnel_id, "");
        proof {
            lemma_empty_literal();
        }
        assert(url@ =~= self.base_url@ + "/tunnels/"@ + tunnel_id@);
        Ok(ApiRequest { method: HttpMethod::Get, url, body: None })
    }

    /// `PUT /tunnels/{id}` with the given fields, each validated.
    pub fn update_tunnel(
        &self,
        tunnel_id: &str,
        name: Option<&str>,
        description: Option<&str>,
        expiration: Option<i32>,
    ) -> (r: Result<ApiRequest, RequestError>)
        ensures
            !valid_tunnel_id_spec(tunnel_id@) ==> is_tunnel_id_rejection(r, tunnel_id@),
            valid_tunnel_id_spec(tunnel_id@) && (name matches Some(n) && tunnel_name_error(n@) is Some)
                ==> r == Err::<ApiRequest, RequestError>(tunnel_name_error(name.unwrap()@).unwrap()),
            valid_tunnel_id_spec(tunnel_id@) && (name matches Some(n) ==> tunnel_name_error(n@) is None)
                && (description matches Some(d) && !valid_description_spec(d@)) ==> r == Err::<
                ApiRequest,
                RequestError,
            >(RequestError::InvalidDescription),
            valid_tunnel_id_spec(tunnel_id@) && (name matches Some(n) ==> tunnel_name_error(n@) is None)
                && (description matches Some(d) ==> valid_description_spec(d@)) && (
            expiration matches Some(e) && !valid_expiration_spec(e)) ==> r == Err::<
                ApiRequest,
                RequestError,
            >(RequestError::InvalidExpiration),
            valid_tunnel_id_spec(tunnel_id@) && (name matches Some(n) ==> tunnel_name_error(n@) is None)
                && (description matches Some(d) ==> valid_description_spec(d@)) && (
            expiration matches Some(e) ==> valid_expiration_spec(e)) ==> is_ok_request(r,
                HttpMethod::Put,
                self.base_url@ + "/tunnels/"@ + tunnel_id@,
                Some(json_object(update_tunnel_fields(opt_str(name), opt_str(description), expiration))),
            ),
    {
        validate_tunnel_id(tunnel_id)?;
        if let Some(n) = name {
            validate_tunnel_name(n)?;
        }
        if let Some(d) = description {
            validate_tunnel_description(d)?;
        }
        if let Some(e) = expiration {
            validate_expiration(e)?;
        }
        let mut fields: Vec<(String, String)> = Vec::new();
        if let Some(n) = name {
            fields.push(string_field("name", n));
        }
        if let Some(d) = description {
            fields.push(string_field("description", d));
        }
        if let Some(e) = expiration {
            fields.push(int_field("expiration", e));
        }
        let body = json_object_text(&fields);
        assert(fields_view(fields@) =~= update_tunnel_fields(opt_str(name), opt_str(description), expiration));
        let url = self.tunnel_url(tunnel_id, "");
        proof {
            lemma_empty_literal();
        }
        assert(url@ =~= self.base_url@ + "/tunnels/"@ + tunnel_id@);
        Ok(ApiRequest { method: HttpMethod::Put, url, body: Some(body) })
    }

    /// `DELETE /tunnels/{id}`.
    pub fn delete_tunnel(&self, tunnel_id: &str) -> (r: Result<ApiRequest, RequestError>)
        ensures
            valid_tunnel_id_spec(tunnel_id@) ==> is_ok_request(r,
                HttpMethod::Delete,
                self.base_url@ + "/tunnels/"@ + tunnel_id@,
                None,
            ),
            !valid_tunnel_id_spec(tunnel_id@) ==> is_tunnel_id_rejection(r, tunnel_id@),
    {
        validate_tunnel_id(tunnel_id)?;
        let url = self.tunnel_url(tunnel_id, "");
        proof {
            lemma_empty_literal();
        }
        assert(url@ =~= self.base_url@ + "/tunnels/"@ + tunnel_id@);
        Ok(ApiRequest { method: HttpMethod::Delete, url, body: None })
    }

    /// `DELETE /tunnels`.
    pub fn delete_all_tunnels(&self) -> (r: ApiRequest)
        ensures
            is_request(r, HttpMethod::Delete, self.base_url@ + "/tunnels"@, None),
    {
        ApiRequest { method: HttpMethod::Delete, url: self.url("/tunnels"), body: None }
    }

    /// `POST /tunnels/{id}/token?scope={scope}` with a JSON `null` body, for
    /// the scopes `host` and `connect`.
    pub fn tunnel_token(&self, tunnel_id: &str, scope: &str) -> (r: Result<ApiRequest, RequestError>)
        ensures
            !valid_tunnel_id_spec(tunnel_id@) ==> is_tunnel_id_rejection(r, tunnel_id@),
            valid_tunnel_id_spec(tunnel_id@) && !(scope@ == "host"@ || scope@ == "connect"@) ==> is_scope_rejection(r, scope@),
            valid_tunnel_id_spec(tunnel_id@) && (scope@ == "host"@ || scope@ == "connect"@) ==> is_ok_request(r,
                HttpMethod::Post,
                self.base_url@ + "/tunnels/"@ + tunnel_id@ + "/token?scope="@ + scope@,
                Some(json_null()),
            ),
    {
        validate_tunnel_id(tunnel_id)?;
        if !(str_eq(scope, "host") || str_eq(scope, "connect")) {
            return Err(RequestError::InvalidScope { scope: owned(scope) });
        }
        let mut url = self.tunnel_url(tunnel_id, "/token?scope=");
        push_str(&mut url, scope);
        Ok(ApiRequest { method: HttpMethod::Post, url, body: Some(null_text()) })
    }

    /// `GET /tunnels/{id}/ports`.
    pub fn list_ports(&self, tunnel_id: &str) -> (r: Result<ApiRequest, RequestError>)
        ensures
            valid_tunnel_id_spec(tunnel_id@) ==> is_ok_request(r,
                HttpMethod::Get,
                self.base_url@ + "/tunnels/"@ + tunnel_id@ + "/ports"@,
                None,
            ),
            !valid_tunnel_id_spec(tunnel_id@) ==> is_tunnel_id_rejection(r, tunnel_id@),
    {
        validate_tunnel_id(tunnel_id)?;
        Ok(ApiRequest { method: HttpMethod::Get, url: self.tunnel_url(tunnel_id, "/ports"), body: None })
    }

    /// `GET /tunnels/{id}/ports/{port}`.
    pub fn show_port(&self, tunnel_id: &str, port: i32) -> (r: Result<ApiRequest, RequestError>)
        ensures
            !valid_tunnel_id_spec(tunnel_id@) ==> is_tunnel_id_rejection(r, tunnel_id@),
            valid_tunnel_id_spec(tunnel_id@) && !valid_port_spec(port) ==> r == Err::<
                ApiRequest,
                RequestError,
            >(RequestError::InvalidPort { port }),
            valid_tunnel_id_spec(tunnel_id@) && valid_port_spec(port) ==> is_ok_request(r, HttpMethod::Get, self.base_url@ + port_path(tunnel_id@, port), None),
    {
        validate_tunnel_id(tunnel_id)?;
        validate_port(port)?;
        Ok(ApiRequest { method: HttpMethod::Get, url: self.port_url(tunnel_id, port), body: None })
    }

    /// `POST /tunnels/{id}/ports` with the port, protocol and anonymous
    /// access.
    pub fn create_port(&self, tunnel_id: &str, port: i32, protocol: &str, allow_anonymous: bool) -> (r:
        Result<ApiRequest, RequestError>)
        ensures
            !valid_tunnel_id_spec(tunnel_id@) ==> is_tunnel_id_rejection(r, tunnel_id@),
            valid_tunnel_id_spec(tunnel_id@) && !valid_port_spec(port) ==> r == Err::<
                ApiRequest,
                RequestError,
            >(RequestError::InvalidPort { port }),
            valid_tunnel_id_spec(tunnel_id@) && valid_port_spec(port) && !valid_protocol_spec(
                protocol@,
            ) ==> is_protocol_rejection(r, protocol@),
            valid_tunnel_id_spec(tunnel_id@) && valid_port_spec(port) && valid_protocol_spec(
                protocol@,
            ) ==> is_ok_request(r,
                HttpMethod::Post,
                self.base_url@ + "/tunnels/"@ + tunnel_id@ + "/ports"@,
                Some(
                    json_object(
                        seq![
                            ("port"@, json_int(port as int)),
                            ("protocol"@, json_quoted(protocol@)),
                            ("allowAnonymous"@, json_bool(allow_anonymous)),
                        ],
                    ),
                ),
            ),
    {
        validate_tunnel_id(tunnel_id)?;
        validate_port(port)?;
        validate_protocol(protocol)?;
        let mut fields: Vec<(String, String)> = Vec::new();
        fields.push(int_field("port", port));
        fields.push(string_field("protocol", protocol));
        fields.push(bool_field("allowAnonymous", allow_anonymous));
        let body = json_object_text(&fields);
        assert(fields_view(fields@) =~= seq![
            ("port"@, json_int(port as int)),
            ("protocol"@, json_quoted(protocol@)),
            ("allowAnonymous"@, json_bool(allow_anonymous)),
        ]);
        Ok(ApiRequest { method: HttpMethod::Post, url: self.tunnel_url(tunnel_id, "/ports"), body: Some(body) })
    }

    /// `PUT /tunnels/{id}/ports/{port}` setting anonymous access.
    pub fn update_port(&self, tunnel_id: &str, port: i32, allow_anonymous: bool) -> (r: Result<
        ApiRequest,
        RequestError,
    >)
        ensures
            !valid_tunnel_id_spec(tunnel_id@) ==> is_tunnel_id_rejection(r, tunnel_id@),
            valid_tunnel_id_spec(tunnel_id@) && !valid_port_spec(port) ==> r == Err::<
                ApiRequest,
                RequestError,
            >(RequestError::InvalidPort { port }),
            valid_tunnel_id_spec(tunnel_id@) && valid_port_spec(port) ==> is_ok_request(r,
                HttpMethod::Put,
                self.base_url@ + port_path(tunnel_id@, port),
                Some(json_object(seq![("allowAnonymous"@, json_bool(allow_anonymous))])),
            ),
    {
        validate_tunnel_id(tunnel_id)?;
        validate_port(port)?;
        let mut fields: Vec<(String, String)> = Vec::new();
        fields.push(bool_field("allowAnonymous", allow_anonymous));
        let body = json_object_text(&fields);
        assert(fields_view(fields@) =~= seq![("allowAnonymous"@, json_bool(allow_anonymous))]);
        Ok(ApiRequest { method: HttpMethod::Put, url: self.port_url(tunnel_id, port), body: Some(body) })
    }

    /// `DELETE /tunnels/{id}/ports/{port}`.
    pub fn delete_port(&self, tunnel_id: &str, port: i32) -> (r: Result<ApiRequest, RequestError>)
        ensures
            !valid_tunnel_id_spec(tunnel_id@) ==> is_tunnel_id_rejection(r, tunnel_id@),
            valid_tunnel_id_spec(tunnel_id@) && !valid_port_spec(port) ==> r == Err::<
                ApiRequest,
                RequestError,
            >(RequestError::InvalidPort { port }),
            valid_tunnel_id_spec(tunnel_id@) && valid_port_spec(port) ==> is_ok_request(r, HttpMethod::Delete, self.base_url@ + port_path(tunnel_id@, port), None),
    {
        validate_tunnel_id(tunnel_id)?;
        validate_port(port)?;
        Ok(ApiRequest { method: HttpMethod::Delete, url: self.port_url(tunnel_id, port), body: None })
    }

    /// `GET /limits`.
    pub fn limits(&self) -> (r: ApiRequest)
        ensures
            is_request(r, HttpMethod::Get, self.base_url@ + "/limits"@, None),
    {
        ApiRequest { method: HttpMethod::Get, url: self.url("/limits"), body: None }
    }
}

} // verus!
