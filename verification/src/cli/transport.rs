//! The hosting and connecting boundary of the command-line front end: which
//! tunnel, ports and credentials a relay session would use, and the relay
//! itself, which stays disabled until its framing is validated.
use vstd::prelude::*;
use crate::text::{owned, push_signed_decimal, push_str, signed_decimal};

verus! {

/// Why a relay session does not start.
#[derive(Debug, Clone)]
pub enum TransportError {
    /// No tunnel id given and none configured.
    TunnelIdRequired,
    /// The tunnel has no ports to relay.
    NoPorts { tunnel_id: String },
    /// The relay transport is disabled; the text says for what session.
    RelayDisabled { message: String },
}

impl TransportError {
    /// The text of the error.
    pub fn message_text(&self) -> (r: String)
        ensures
            r@ == match self {
                TransportError::TunnelIdRequired => "tunnel ID is required"@,
                TransportError::NoPorts { tunnel_id } => "no ports configured for tunnel "@ + tunnel_id@,
                TransportError::RelayDisabled { message } => message@,
            },
    {
        match self {
            TransportError::TunnelIdRequired => owned("tunnel ID is required"),
            TransportError::NoPorts { tunnel_id } => {
                let mut s = owned("no ports configured for tunnel ");
                push_str(&mut s, tunnel_id.as_str());
                s
            },
            TransportError::RelayDisabled { message } => message.clone(),
        }
    }
}

/// Where the relay's credential comes from.
#[derive(Debug, Clone)]
pub enum TokenSource {
    /// A token given on the command line.
    Given(String),
    /// The API key authenticates; no token.
    ApiKey,
    /// A token of the mode's scope is requested from the API.
    Fetch,
}

/// The tunnel to relay: the one given, else the configured default.
pub fn relay_tunnel_id(arg: Option<String>, default_tunnel: Option<String>) -> (r: Result<String, TransportError>)
    ensures
        arg is Some ==> r == Ok::<String, TransportError>(arg.unwrap()),
        arg is None && default_tunnel is Some ==> r == Ok::<String, TransportError>(default_tunnel.unwrap()),
        arg is None && default_tunnel is None ==> r == Err::<String, TransportError>(TransportError::TunnelIdRequired),
{
    match arg {
        Some(id) => Ok(id),
        None => match default_tunnel {
            Some(id) => Ok(id),
            None => Err(TransportError::TunnelIdRequired),
        },
    }
}

/// The relay credential: a given token, else the API key when one was
/// given, else a token fetched from the API.
pub fn relay_token(token: Option<String>, api_key_given: bool) -> (r: TokenSource)
    ensures
        token is Some ==> r == TokenSource::Given(token.unwrap()),
        token is None && api_key_given ==> r == TokenSource::ApiKey,
        token is None && !api_key_given ==> r == TokenSource::Fetch,
{
    match token {
        Some(v) => TokenSource::Given(v),
        None => if api_key_given {
            TokenSource::ApiKey
        } else {
            TokenSource::Fetch
        },
    }
}

/// Hosting lists the tunnel's ports from the API when none were given.
pub fn host_lists_ports(ports: &Vec<i32>) -> (r: bool)
    ensures
        r == (ports@.len() == 0),
{
    ports.len() == 0
}

/// Hosting needs at least one port.
pub fn check_host_ports(tunnel_id: &str, ports: &Vec<i32>) -> (r: Result<(), TransportError>)
    ensures
        ports@.len() > 0 ==> r is Ok,
        ports@.len() == 0 ==> (r matches Err(TransportError::NoPorts { tunnel_id: t }) && t@ == tunnel_id@),
{
    if ports.len() == 0 {
        Err(TransportError::NoPorts { tunnel_id: owned(tunnel_id) })
    } else {
        Ok(())
    }
}

/// Connecting needs at least one port unless a token was given.
pub fn check_connect_ports(tunnel_id: &str, ports: &Vec<i32>, token_given: bool) -> (r: Result<(), TransportError>)
    ensures
        (ports@.len() > 0 || token_given) ==> r is Ok,
        (ports@.len() == 0 && !token_given) ==> (r matches Err(TransportError::NoPorts { tunnel_id: t }) && t@ == tunnel_id@),
{
    if ports.len() == 0 && !token_given {
        Err(TransportError::NoPorts { tunnel_id: owned(tunnel_id) })
    } else {
        Ok(())
    }
}

/// The elements of a list of ports, separated by `, ` (`{:?}` without the
/// brackets).
pub open spec fn port_list_items(ports: Seq<i32>) -> Seq<char>
    decreases ports.len(),
{
    if ports.len() == 0 {
        Seq::empty()
    } else if ports.len() == 1 {
        signed_decimal(ports[0] as int)
    } else {
        port_list_items(ports.drop_last()) + ", "@ + signed_decimal(ports.last() as int)
    }
}

/// The message of the disabled relay.
pub open spec fn relay_message(mode: Seq<char>, tunnel_id: Seq<char>, ports: Seq<i32>, token: Seq<char>) -> Seq<char> {
    "Rust relay transport is not enabled yet (mode="@ + mode + ", tunnel="@ + tunnel_id + ", ports=["@
        + port_list_items(ports) + "], auth="@ + (if token.len() == 0 {
        "api-key"@
    } else {
        "token"@
    }) + "). Management commands are fully migrated; relay interoperability must be validated before release."@
}

/// The relay: it refuses to run, naming the session it was asked for, rather
/// than forward with unvalidated framing.
pub fn run_relay(mode: &str, tunnel_id: &str, ports: &Vec<i32>, token: &str) -> (r: TransportError)
    ensures
        r matches TransportError::RelayDisabled { message } && message@ == relay_message(mode@, tunnel_id@, ports@, token@),
{
    let mut s = owned("Rust relay transport is not enabled yet (mode=");
    push_str(&mut s, mode);
    push_str(&mut s, ", tunnel=");
    push_str(&mut s, tunnel_id);
    push_str(&mut s, ", ports=[");
    let ghost head = s@;
    let mut i: usize = 0;
    while i < ports.len()
        invariant
            i <= ports@.len(),
            s@ == head + port_list_items(ports@.take(i as int)),
        decreases ports@.len() - i,
    {
        let ghost before = s@;
        if i > 0 {
            push_str(&mut s, ", ");
        }
        push_signed_decimal(&mut s, ports[i] as i64);
        proof {
            let t = ports@.take(i + 1);
            assert(t.drop_last() =~= ports@.take(i as int));
            if i == 0 {
                assert(ports@.take(0) =~= Seq::<i32>::empty());
                assert(s@ =~= head + port_list_items(t));
            } else {
                assert(s@ =~= head + port_list_items(t));
            }
        }
        i = i + 1;
    }
    assert(ports@.take(ports@.len() as int) =~= ports@);
    push_str(&mut s, "], auth=");
    let auth = if token.unicode_len() == 0 { "api-key" } else { "token" };
    push_str(&mut s, auth);
    push_str(
        &mut s,
        "). Management commands are fully migrated; relay interoperability must be validated before release.",
    );
    TransportError::RelayDisabled { message: s }
}

} // verus!
