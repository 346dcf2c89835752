//! The commands of the command-line front end and the decisions they make
//! between API calls: which tunnel a command acts on, what a deletion does
//! to the default tunnel, anonymous access flags, and the lines printed.
use vstd::prelude::*;
use crate::cli::api::{CreatedTunnel, Limits, Port, TunnelSummary, TunnelToken, Tunnel};
use crate::cli::config::{AppConfig, ConfigError};
use crate::text::{bool_string, bool_text, decimal, owned, push_decimal, push_signed_decimal, push_str, signed_decimal, signed_string};

verus! {

/// The top-level commands.
#[derive(Debug)]
pub enum Command {
    Auth(AuthArgs),
    Tunnel(TunnelArgs),
    Port(PortArgs),
    Limits,
    Echo(EchoArgs),
    Ping(PingArgs),
    Version,
    Host(HostArgs),
    Connect(ConnectArgs),
}

/// `auth` and its subcommand.
#[derive(Debug)]
pub struct AuthArgs {
    pub cmd: AuthCommand,
}

/// `auth login | logout | status`.
#[derive(Debug)]
pub enum AuthCommand {
    Login { api_key: String },
    Logout,
    Status,
}

/// `tunnel` and its subcommand.
#[derive(Debug)]
pub struct TunnelArgs {
    pub cmd: TunnelCommand,
}

/// The tunnel subcommands; a missing tunnel id means the default tunnel.
#[allow(inconsistent_fields)]
#[derive(Debug)]
pub enum TunnelCommand {
    List,
    Create { name: String, description: String, expiration: Option<i32> },
    Show { tunnel_id: Option<String> },
    Update {
        tunnel_id: Option<String>,
        name: Option<String>,
        description: Option<String>,
        expiration: Option<i32>,
    },
    Delete { tunnel_id: Option<String> },
    DeleteAll,
    Token { tunnel_id: Option<String>, scope: String },
    SetDefault { tunnel_id: String },
    Unset,
}

/// `port` and its subcommand.
#[derive(Debug)]
pub struct PortArgs {
    pub cmd: PortCommand,
}

/// The port subcommands; a missing tunnel id means the default tunnel.
#[derive(Debug)]
pub enum PortCommand {
    List { tunnel_id: Option<String> },
    Create { tunnel_id: Option<String>, port: i32, protocol: String, allow_anonymous: bool },
    Show { tunnel_id: Option<String>, port: i32 },
    Update { tunnel_id: Option<String>, port: i32, allow_anonymous: bool, deny_anonymous: bool },
    Delete { tunnel_id: Option<String>, port: i32 },
}

/// `echo`: the port and interface of the local echo server.
#[derive(Debug)]
pub struct EchoArgs {
    pub port: u16,
    pub interface: String,
}

/// `ping`: the URI and the interval in milliseconds.
#[derive(Debug)]
pub struct PingArgs {
    pub uri: String,
    pub interval: u64,
}

/// `host`: the tunnel, its ports, and the credentials.
#[derive(Debug)]
pub struct HostArgs {
    pub tunnel_id: Option<String>,
    pub ports: Vec<i32>,
    pub token: Option<String>,
    pub api_key: Option<String>,
}

/// `connect`: the tunnel and the credentials.
#[derive(Debug)]
pub struct ConnectArgs {
    pub tunnel_id: Option<String>,
    pub token: Option<String>,
    pub api_key: Option<String>,
}

/// A command refused before any request.
#[derive(Debug, Clone, Copy, PartialEq, Eq, Structural)]
pub enum CommandError {
    /// `--allow-anonymous` and `--deny-anonymous` together.
    ConflictingAnonymousFlags,
}

impl CommandError {
    /// The text of the error.
    pub fn message_text(&self) -> (r: String)
        ensures
            r@ == "--allow-anonymous and --deny-anonymous are mutually exclusive"@,
    {
        owned("--allow-anonymous and --deny-anonymous are mutually exclusive")
    }
}

/// The tunnel a command acts on: the one given, else the default tunnel of
/// the configuration (whose load failure is passed on when it is needed).
pub fn tunnel_id(arg: Option<String>, loaded: Result<AppConfig, ConfigError>) -> (r: Result<
    String,
    ConfigError,
>)
    ensures
        arg is Some ==> r == Ok::<String, ConfigError>(arg.unwrap()),
        arg is None ==> r == match loaded {
            Err(e) => Err(e),
            Ok(c) => match c.default_tunnel_id {
                Some(id) => Ok(id),
                None => Err(ConfigError::NoDefaultTunnel),
            },
        },
{
    match arg {
        Some(id) => Ok(id),
        None => crate::cli::config::default_tunnel(loaded),
    }
}

/// Whether deleting `deleted` clears the default tunnel: when it was the
/// default.
pub fn clears_default(config: &AppConfig, deleted: &str) -> (r: bool)
    ensures
        r == (config.default_tunnel_id matches Some(id) && id@ == deleted@),
{
    match &config.default_tunnel_id {
        Some(id) => crate::text::str_eq(id.as_str(), deleted),
        None => false,
    }
}

/// The anonymous access a port update sets: allowed with
/// `--allow-anonymous`, denied otherwise; both flags together are refused.
pub fn anonymous_access(allow_anonymous: bool, deny_anonymous: bool) -> (r: Result<bool, CommandError>)
    ensures
        allow_anonymous && deny_anonymous ==> r == Err::<bool, CommandError>(
            CommandError::ConflictingAnonymousFlags,
        ),
        !(allow_anonymous && deny_anonymous) ==> r == Ok::<bool, CommandError>(allow_anonymous),
{
    if allow_anonymous && deny_anonymous {
        Err(CommandError::ConflictingAnonymousFlags)
    } else {
        Ok(allow_anonymous && !deny_anonymous)
    }
}

/// The traffic used: quota less remaining.
pub fn used_bytes(limits: &Limits) -> (r: i64)
    requires
        i64::MIN <= limits.quota_bytes - limits.remaining_bytes <= i64::MAX,
    ensures
        r == limits.quota_bytes - limits.remaining_bytes,
{
    limits.quota_bytes - limits.remaining_bytes
}

/// One line of `tunnel list`: id, name, description, expiration and port
/// count, separated by tabs.
pub fn tunnel_row(t: &TunnelSummary) -> (r: String)
    ensures
        r@ == t.tunnel_id@ + "\t"@ + t.name@ + "\t"@ + t.description@ + "\t"@ + decimal(
            t.tunnel_expiration as nat,
        ) + "\t"@ + signed_decimal(t.port_count as int),
{
    let mut s = t.tunnel_id.clone();
    push_str(&mut s, "\t");
    push_str(&mut s, t.name.as_str());
    push_str(&mut s, "\t");
    push_str(&mut s, t.description.as_str());
    push_str(&mut s, "\t");
    push_decimal(&mut s, t.tunnel_expiration as u64);
    push_str(&mut s, "\t");
    push_signed_decimal(&mut s, t.port_count as i64);
    s
}

/// One line of `port list`: port, protocol, anonymous access and tunnel,
/// separated by tabs.
pub fn port_row(p: &Port) -> (r: String)
    ensures
        r@ == signed_decimal(p.port as int) + "\t"@ + p.protocol@ + "\t"@ + bool_text(p.allow_anonymous)
            + "\t"@ + p.tunnel_id@,
{
    let mut s = String::new();
    push_signed_decimal(&mut s, p.port as i64);
    push_str(&mut s, "\t");
    push_str(&mut s, p.protocol.as_str());
    push_str(&mut s, "\t");
    let anon = bool_string(p.allow_anonymous);
    push_str(&mut s, anon.as_str());
    push_str(&mut s, "\t");
    push_str(&mut s, p.tunnel_id.as_str());
    assert(s@ =~= signed_decimal(p.port as int) + "\t"@ + p.protocol@ + "\t"@ + bool_text(
        p.allow_anonymous,
    ) + "\t"@ + p.tunnel_id@);
    s
}

/// The rows printed for a created tunnel.
pub fn created_tunnel_rows(t: CreatedTunnel) -> (r: Vec<(&'static str, String)>)
    ensures
        r@.len() == 4,
        r@[0].0@ == "Tunnel ID"@ && r@[0].1 == t.tunnel_id,
        r@[1].0@ == "Name"@ && r@[1].1 == t.name,
        r@[2].0@ == "Description"@ && r@[2].1 == t.description,
        r@[3].0@ == "Expiration hours"@ && r@[3].1@ == signed_decimal(t.expiration_hours as int),
{
    let exp = signed_string(t.expiration_hours as i64);
    let mut v: Vec<(&'static str, String)> = Vec::new();
    v.push(("Tunnel ID", t.tunnel_id));
    v.push(("Name", t.name));
    v.push(("Description", t.description));
    v.push(("Expiration hours", exp));
    v
}

/// The rows printed for one tunnel.
pub fn tunnel_rows(t: Tunnel) -> (r: Vec<(&'static str, String)>)
    ensures
        r@.len() == 4,
        r@[0].0@ == "Tunnel ID"@ && r@[0].1 == t.tunnel_id,
        r@[1].0@ == "Name"@ && r@[1].1 == t.name,
        r@[2].0@ == "Description"@ && r@[2].1 == t.description,
        r@[3].0@ == "Expiration"@ && r@[3].1@ == decimal(t.tunnel_expiration as nat),
{
    let mut exp = String::new();
    push_decimal(&mut exp, t.tunnel_expiration as u64);
    assert(exp@ =~= decimal(t.tunnel_expiration as nat));
    let mut v: Vec<(&'static str, String)> = Vec::new();
    v.push(("Tunnel ID", t.tunnel_id));
    v.push(("Name", t.name));
    v.push(("Description", t.description));
    v.push(("Expiration", exp));
    v
}

/// The rows printed for a tunnel token.
pub fn token_rows(t: TunnelToken) -> (r: Vec<(&'static str, String)>)
    ensures
        r@.len() == 3,
        r@[0].0@ == "Tunnel ID"@ && r@[0].1 == t.tunnel_id,
        r@[1].0@ == "Scope"@ && r@[1].1 == t.scope,
        r@[2].0@ == "Token"@ && r@[2].1 == t.token,
{
    let mut v: Vec<(&'static str, String)> = Vec::new();
    v.push(("Tunnel ID", t.tunnel_id));
    v.push(("Scope", t.scope));
    v.push(("Token", t.token));
    v
}

/// The rows printed for one port.
pub fn port_rows(p: Port) -> (r: Vec<(&'static str, String)>)
    ensures
        r@.len() == 4,
        r@[0].0@ == "Tunnel ID"@ && r@[0].1 == p.tunnel_id,
        r@[1].0@ == "Port"@ && r@[1].1@ == signed_decimal(p.port as int),
        r@[2].0@ == "Protocol"@ && r@[2].1 == p.protocol,
        r@[3].0@ == "Allow anonymous"@ && r@[3].1@ == bool_text(p.allow_anonymous),
{
    let port = signed_string(p.port as i64);
    let anon = bool_string(p.allow_anonymous);
    let mut v: Vec<(&'static str, String)> = Vec::new();
    v.push(("Tunnel ID", p.tunnel_id));
    v.push(("Port", port));
    v.push(("Protocol", p.protocol));
    v.push(("Allow anonymous", anon));
    v
}

/// The echo server's body.
pub const ECHO_BODY: &'static str = "DevBridge echo\n";

/// The echo server's whole response.
pub open spec fn echo_response_spec() -> Seq<char> {
    "HTTP/1.1 200 OK\r\nContent-Type: text/plain\r\nContent-Length: "@ + decimal(ECHO_BODY.len() as nat)
        + "\r\nConnection: close\r\n\r\n"@ + ECHO_BODY@
}

/// The echo server's response: a plain-text body, then close.
pub fn echo_response() -> (r: String)
    ensures
        r@ == echo_response_spec(),
{
    let mut s = owned("HTTP/1.1 200 OK\r\nContent-Type: text/plain\r\nContent-Length: ");
    let n = ECHO_BODY.len();
    push_decimal(&mut s, n as u64);
    push_str(&mut s, "\r\nConnection: close\r\n\r\n");
    push_str(&mut s, ECHO_BODY);
    s
}

/// The line printed for a ping that got a response.
pub fn ping_line(status: &str, millis: u64) -> (r: String)
    ensures
        r@ == "HTTP "@ + status@ + " -- "@ + decimal(millis as nat) + " ms"@,
{
    let mut s = owned("HTTP ");
    push_str(&mut s, status);
    push_str(&mut s, " -- ");
    push_decimal(&mut s, millis);
    push_str(&mut s, " ms");
    s
}

/// The line printed for a ping that failed; pinging stops after it.
pub fn ping_error_line(millis: u64, error: &str) -> (r: String)
    ensures
        r@ == "HTTP ERROR -- "@ + decimal(millis as nat) + " ms ("@ + error@ + ")"@,
{
    let mut s = owned("HTTP ERROR -- ");
    push_decimal(&mut s, millis);
    push_str(&mut s, " ms (");
    push_str(&mut s, error);
    push_str(&mut s, ")");
    s
}

} // verus!
