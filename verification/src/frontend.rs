//! The decisions of the `devbridge` command line: which tunnel a command
//! works on, how `host` and `connect` find their tunnel, ports and
//! credentials, and the texts they report.
use vstd::prelude::*;
use crate::control::api::{
    ApiClient, CreateTunnelResult, LimitsResult, ListTunnelResult, PortResult, RequestError,
    ShowTunnelResult, TunnelTokenResult, ALL_PORTS,
};
use crate::table::{render_rows, render_table, row_view, rows_view, utf8_full_rows, utf8_full_table};
use crate::control::config::{default_tunnel, AppConfig, ConfigError};
use crate::http::ApiRequest;
use crate::text::{bool_string, bool_text, decimal, decimal_string, signed_string, is_blank, is_blank_spec, owned, push_decimal, push_signed_decimal, push_str, signed_decimal};
use crate::tunnel::TunnelAuth;

verus! {

/// Why `host` or `connect` stops before reaching the gateway.
#[derive(Debug, Clone)]
pub enum FrontError {
    /// `--token` without a tunnel id.
    TunnelIdRequired,
    /// A configured default was needed and could not be had.
    Config(ConfigError),
    /// A port that is no TCP port.
    InvalidTcpPort,
    /// `connect --token` without `--ports`.
    TokenNeedsPorts,
}

impl FrontError {
    /// The text of the error.
    pub fn message_text(&self) -> (r: String)
        ensures
            match self {
                FrontError::TunnelIdRequired => r@ == "tunnel ID is required with --token"@,
                FrontError::Config(e) => r@ == match e {
                    ConfigError::Load { message } => message@,
                    ConfigError::NoDefaultTunnel => "no default tunnel configured; run 'devbridge set <tunnel-id>' first"@,
                    ConfigError::MissingApiKey => "missing API key; run 'devbridge auth login' or set HW_API_KEY"@,
                },
                FrontError::InvalidTcpPort => r@ == "invalid TCP port"@,
                FrontError::TokenNeedsPorts => r@
                    == "--token mode requires --ports because REST port discovery is intentionally skipped"@,
            },
    {
        match self {
            FrontError::TunnelIdRequired => owned("tunnel ID is required with --token"),
            FrontError::Config(e) => e.message_text(),
            FrontError::InvalidTcpPort => owned("invalid TCP port"),
            FrontError::TokenNeedsPorts => owned(
                "--token mode requires --ports because REST port discovery is intentionally skipped",
            ),
        }
    }
}

/// What `default_tunnel` gives for a loaded configuration, by view.
pub open spec fn default_tunnel_outcome(loaded: Result<AppConfig, ConfigError>) -> Result<
    Seq<char>,
    ConfigError,
> {
    match loaded {
        Err(e) => Err(e),
        Ok(c) => match c.default_tunnel_id {
            Some(id) if !is_blank_spec(id@) => Ok(id@),
            _ => Err(ConfigError::NoDefaultTunnel),
        },
    }
}

/// A result of strings, by view.
pub open spec fn outcome_view<E>(r: Result<String, E>) -> Result<Seq<char>, E> {
    match r {
        Ok(s) => Ok(s@),
        Err(e) => Err(e),
    }
}

/// The tunnel a command works on: the one given unless it is blank, else the
/// configured default.
pub fn resolve_tunnel(tunnel_id: Option<String>, loaded: Result<AppConfig, ConfigError>) -> (r:
    Result<String, ConfigError>)
    ensures
        match tunnel_id {
            Some(id) if !is_blank_spec(id@) => r == Ok::<String, ConfigError>(id),
            _ => outcome_view(r) == default_tunnel_outcome(loaded),
        },
{
    match tunnel_id {
        Some(id) => {
            if is_blank(id.as_str()) {
                default_tunnel(loaded)
            } else {
                Ok(id)
            }
        },
        None => default_tunnel(loaded),
    }
}

/// Where `host` takes its tunnel from.
#[derive(Debug, Clone)]
pub enum HostTunnel {
    /// A tunnel that exists: given, or the configured default.
    Existing(String),
    /// A tunnel to create under this name, with one port per given port.
    Create(String),
}

/// `tunnel-{first port}-{clock modulo 10000}`.
pub open spec fn host_tunnel_name_spec(first_port: i32, clock_millis: u128) -> Seq<char> {
    "tunnel-"@ + signed_decimal(first_port as int) + "-"@ + decimal((clock_millis % 10000) as nat)
}

/// The name of a tunnel that `host` creates for its ports.
pub fn host_tunnel_name(first_port: i32, clock_millis: u128) -> (r: String)
    ensures
        r@ == host_tunnel_name_spec(first_port, clock_millis),
{
    let mut s = owned("tunnel-");
    push_signed_decimal(&mut s, first_port as i64);
    push_str(&mut s, "-");
    let rest: u128 = clock_millis % 10000;
    push_decimal(&mut s, rest as u64);
    s
}

/// The tunnel `host` serves: with `--token` the given id, which is then
/// required; else the given id; else, without ports, the configured
/// default; else a new tunnel named after the first port and the clock.
pub fn host_tunnel(
    tunnel_id: Option<String>,
    token_given: bool,
    ports: &Vec<i32>,
    loaded: Result<AppConfig, ConfigError>,
    clock_millis: u128,
) -> (r: Result<HostTunnel, FrontError>)
    ensures
        token_given ==> match tunnel_id {
            Some(id) => r == Ok::<HostTunnel, FrontError>(HostTunnel::Existing(id)),
            None => r == Err::<HostTunnel, FrontError>(FrontError::TunnelIdRequired),
        },
        !token_given && tunnel_id is Some ==> r == Ok::<HostTunnel, FrontError>(
            HostTunnel::Existing(tunnel_id.unwrap()),
        ),
        !token_given && tunnel_id is None && ports.len() == 0 ==> match default_tunnel_outcome(
            loaded,
        ) {
            Ok(id) => (r matches Ok(HostTunnel::Existing(t)) && t@ == id),
            Err(e) => r == Err::<HostTunnel, FrontError>(FrontError::Config(e)),
        },
        !token_given && tunnel_id is None && ports.len() > 0 ==> (r matches Ok(
            HostTunnel::Create(name),
        ) && name@ == host_tunnel_name_spec(ports@[0], clock_millis)),
{
    if token_given {
        match tunnel_id {
            Some(id) => Ok(HostTunnel::Existing(id)),
            None => Err(FrontError::TunnelIdRequired),
        }
    } else {
        match tunnel_id {
            Some(id) => Ok(HostTunnel::Existing(id)),
            None => {
                if ports.len() == 0 {
                    match default_tunnel(loaded) {
                        Ok(id) => Ok(HostTunnel::Existing(id)),
                        Err(e) => Err(FrontError::Config(e)),
                    }
                } else {
                    Ok(HostTunnel::Create(host_tunnel_name(ports[0], clock_millis)))
                }
            },
        }
    }
}

/// The port creations that follow a tunnel created by `host`, in order:
/// each port with protocol `auto` and anonymous access allowed.
pub fn host_port_requests(client: &ApiClient, tunnel_id: &str, ports: &Vec<i32>) -> (r: Vec<
    Result<ApiRequest, RequestError>,
>)
    ensures
        r.len() == ports.len(),
        forall|i: int|
            0 <= i < ports.len() ==> call_ensures(
                ApiClient::create_port,
                (client, tunnel_id, ports@[i], "auto", true),
                #[trigger] r@[i],
            ),
{
    let mut out: Vec<Result<ApiRequest, RequestError>> = Vec::new();
    let mut i: usize = 0;
    while i < ports.len()
        invariant
            i <= ports.len(),
            out.len() == i,
            forall|j: int|
                0 <= j < i ==> call_ensures(
                    ApiClient::create_port,
                    (client, tunnel_id, ports@[j], "auto", true),
                    #[trigger] out@[j],
                ),
        decreases ports.len() - i,
    {
        let req = client.create_port(tunnel_id, ports[i], "auto", true);
        out.push(req);
        i = i + 1;
    }
    out
}

/// Whether the ports must be asked of the API: no token and no ports given.
pub fn discovers_ports(token_given: bool, ports_given: usize) -> (r: bool)
    ensures
        r == (!token_given && ports_given == 0),
{
    !token_given && ports_given == 0
}

/// The credential the tunnel endpoint presents: the given token, else the
/// given API key; `None` when a token of the tunnel must be fetched first.
pub fn tunnel_auth(token: Option<String>, api_key: Option<String>) -> (r: Option<TunnelAuth>)
    ensures
        match token {
            Some(t) => r == Some(TunnelAuth::Token(t)),
            None => match api_key {
                Some(k) => r == Some(TunnelAuth::ApiKey(k)),
                None => r is None,
            },
        },
{
    match token {
        Some(t) => Some(TunnelAuth::Token(t)),
        None => match api_key {
            Some(k) => Some(TunnelAuth::ApiKey(k)),
            None => None,
        },
    }
}

/// The TCP ports of a port list: `ALL_PORTS` is skipped, and any other
/// value outside `0..=65535` refuses the whole list.
pub open spec fn tcp_ports_spec(ports: Seq<i32>) -> Option<Seq<u16>>
    decreases ports.len(),
{
    if ports.len() == 0 {
        Some(Seq::empty())
    } else {
        match tcp_ports_spec(ports.drop_last()) {
            None => None,
            Some(prefix) => {
                let p = ports.last();
                if p == ALL_PORTS {
                    Some(prefix)
                } else if 0 <= p && p <= 65535 {
                    Some(prefix.push(p as u16))
                } else {
                    None
                }
            },
        }
    }
}

/// The TCP ports to forward, from the ports given or listed by the API.
pub fn tcp_ports(ports: &Vec<i32>) -> (r: Result<Vec<u16>, FrontError>)
    ensures
        match tcp_ports_spec(ports@) {
            Some(s) => r is Ok && r.unwrap()@ == s,
            None => r == Err::<Vec<u16>, FrontError>(FrontError::InvalidTcpPort),
        },
{
    let mut out: Vec<u16> = Vec::new();
    let mut i: usize = 0;
    while i < ports.len()
        invariant
            i <= ports.len(),
            tcp_ports_spec(ports@.take(i as int)) == Some(out@),
        decreases ports.len() - i,
    {
        assert(ports@.take(i + 1).drop_last() =~= ports@.take(i as int));
        let p = ports[i];
        if p == ALL_PORTS {
        } else if 0 <= p && p <= 65535 {
            out.push(p as u16);
        } else {
            proof {
                lemma_tcp_ports_prefix_refused(ports@, i as int + 1);
            }
            return Err(FrontError::InvalidTcpPort);
        }
        i = i + 1;
    }
    assert(ports@.take(ports.len() as int) =~= ports@);
    Ok(out)
}

proof fn lemma_tcp_ports_prefix_refused(ports: Seq<i32>, k: int)
    requires
        0 <= k <= ports.len(),
        tcp_ports_spec(ports.take(k)) is None,
    ensures
        tcp_ports_spec(ports) is None,
    decreases ports.len() - k,
{
    if k < ports.len() {
        assert(ports.take(k + 1).drop_last() =~= ports.take(k));
        lemma_tcp_ports_prefix_refused(ports, k + 1);
    } else {
        assert(ports.take(k) =~= ports);
    }
}

/// Law: a port list is accepted exactly when each of its values is
/// `ALL_PORTS` or within `0..=65535`, and then gives its values other than
/// `ALL_PORTS`, in order.
pub proof fn lemma_tcp_ports_accepted(ports: Seq<i32>)
    ensures
        tcp_ports_spec(ports) is Some <==> forall|i: int|
            0 <= i < ports.len() ==> #[trigger] ports[i] == ALL_PORTS || (0 <= ports[i] && ports[i] <= 65535),
        tcp_ports_spec(ports) is Some ==> tcp_ports_spec(ports).unwrap() == ports.filter(
            |p: i32| p != ALL_PORTS,
        ).map_values(|p: i32| p as u16),
    decreases ports.len(),
{
    reveal(Seq::filter);
    let keep = |p: i32| p != ALL_PORTS;
    let conv = |p: i32| p as u16;
    if ports.len() > 0 {
        let init = ports.drop_last();
        lemma_tcp_ports_accepted(init);
        assert forall|i: int| 0 <= i < init.len() implies #[trigger] init[i] == ports[i] by {}
        if tcp_ports_spec(ports) is Some {
            let prefix = tcp_ports_spec(init).unwrap();
            assert(prefix == init.filter(keep).map_values(conv));
            assert forall|i: int| 0 <= i < ports.len() implies #[trigger] ports[i] == ALL_PORTS || (0
                <= ports[i] && ports[i] <= 65535) by {
                if i < init.len() {
                    assert(init[i] == ports[i]);
                }
            }
            if ports.last() != ALL_PORTS {
                assert(ports.filter(keep) == init.filter(keep).push(ports.last()));
                assert(ports.filter(keep).map_values(conv) =~= prefix.push(ports.last() as u16));
            } else {
                assert(ports.filter(keep) == init.filter(keep));
            }
        } else {
            if tcp_ports_spec(init) is Some {
                let k = ports.len() - 1;
                assert(!(ports[k] == ALL_PORTS || (0 <= ports[k] && ports[k] <= 65535)));
            } else {
                let i = choose|i: int| 0 <= i < init.len() && !(#[trigger] init[i] == ALL_PORTS || (0 <= init[i]
                    && init[i] <= 65535));
                assert(ports[i] == init[i]);
            }
        }
    }
}

/// `connect --token` needs the ports given, as none are asked of the API.
pub fn check_token_ports(token_given: bool, ports: &Vec<u16>) -> (r: Result<(), FrontError>)
    ensures
        r is Ok <==> !(token_given && ports.len() == 0),
        r is Err ==> r == Err::<(), FrontError>(FrontError::TokenNeedsPorts),
{
    if token_given && ports.len() == 0 {
        Err(FrontError::TokenNeedsPorts)
    } else {
        Ok(())
    }
}

/// Whether deleting `deleted` also clears the configured default: exactly
/// when the default (non-blank) names it.
pub fn delete_clears_default(loaded: &Result<AppConfig, ConfigError>, deleted: &str) -> (r: bool)
    ensures
        r == (default_tunnel_outcome(*loaded) == Ok::<Seq<char>, ConfigError>(deleted@)),
{
    match loaded {
        Ok(c) => match &c.default_tunnel_id {
            Some(id) => !is_blank(id.as_str()) && crate::text::str_eq(id.as_str(), deleted),
            None => false,
        },
        Err(_) => false,
    }
}

// ---------------------------------------------------------------------
// Printed output
// ---------------------------------------------------------------------

/// Key/value rows, by view.
pub open spec fn kv_view(rows: Seq<(&str, String)>) -> Seq<(Seq<char>, Seq<char>)> {
    Seq::new(rows.len(), |i: int| (rows[i].0@, rows[i].1@))
}

/// Key/value rows as two-cell table rows.
pub open spec fn kv_cells(rows: Seq<(Seq<char>, Seq<char>)>) -> Seq<Seq<Seq<char>>> {
    Seq::new(rows.len(), |i: int| seq![rows[i].0, rows[i].1])
}

/// A key/value listing drawn as a table without header.
pub fn kv_table(rows: &Vec<(&str, String)>) -> (r: String)
    ensures
        r@ == utf8_full_rows(kv_cells(kv_view(rows@))),
{
    let mut cells: Vec<Vec<String>> = Vec::new();
    let mut i: usize = 0;
    while i < rows.len()
        invariant
            i <= rows.len(),
            cells@.len() == i,
            forall|k: int| 0 <= k < i ==> row_view(#[trigger] cells@[k]@) == seq![rows@[k].0@, rows@[k].1@],
        decreases rows.len() - i,
    {
        let mut row: Vec<String> = Vec::new();
        row.push(owned(rows[i].0));
        row.push(rows[i].1.clone());
        assert(row_view(row@) =~= seq![rows@[i as int].0@, rows@[i as int].1@]);
        cells.push(row);
        i = i + 1;
    }
    assert(rows_view(cells@) =~= kv_cells(kv_view(rows@)));
    render_rows(cells)
}

/// The rows printed for a created tunnel.
pub open spec fn created_tunnel_spec(t: CreateTunnelResult) -> Seq<(Seq<char>, Seq<char>)> {
    seq![
        ("Tunnel ID"@, t.tunnel_id@),
        ("Name"@, t.name@),
        ("Description"@, t.description@),
        ("Expiration hours"@, signed_decimal(t.expiration_hours as int)),
    ]
}

/// The rows printed for a created tunnel.
pub fn created_tunnel_kv(t: &CreateTunnelResult) -> (r: Vec<(&'static str, String)>)
    ensures
        kv_view(r@) == created_tunnel_spec(*t),
{
    let mut v: Vec<(&'static str, String)> = Vec::new();
    v.push(("Tunnel ID", t.tunnel_id.clone()));
    v.push(("Name", t.name.clone()));
    v.push(("Description", t.description.clone()));
    v.push(("Expiration hours", signed_string(t.expiration_hours as i64)));
    assert(kv_view(v@) =~= created_tunnel_spec(*t));
    v
}

/// The rows printed for one tunnel; a tunnel without status shows zero
/// counts.
pub open spec fn show_tunnel_spec(t: ShowTunnelResult) -> Seq<(Seq<char>, Seq<char>)> {
    let (clients, hosts, up, down) = match t.status {
        Some(st) => (
            st.client_connection_count as int,
            st.host_connection_count as int,
            st.total_upload_bytes as int,
            st.total_download_bytes as int,
        ),
        None => (0int, 0int, 0int, 0int),
    };
    seq![
        ("Tunnel ID"@, t.tunnel_id@),
        ("Name"@, t.name@),
        ("Description"@, t.description@),
        ("Expires"@, decimal(t.tunnel_expiration as nat)),
        ("Clients"@, signed_decimal(clients)),
        ("Hosts"@, signed_decimal(hosts)),
        ("Upload bytes"@, signed_decimal(up)),
        ("Download bytes"@, signed_decimal(down)),
    ]
}

/// The rows printed for one tunnel.
pub fn show_tunnel_kv(t: &ShowTunnelResult) -> (r: Vec<(&'static str, String)>)
    ensures
        kv_view(r@) == show_tunnel_spec(*t),
{
    let (clients, hosts, up, down): (i64, i64, i64, i64) = match &t.status {
        Some(st) => (
            st.client_connection_count as i64,
            st.host_connection_count as i64,
            st.total_upload_bytes,
            st.total_download_bytes,
        ),
        None => (0, 0, 0, 0),
    };
    let mut v: Vec<(&'static str, String)> = Vec::new();
    v.push(("Tunnel ID", t.tunnel_id.clone()));
    v.push(("Name", t.name.clone()));
    v.push(("Description", t.description.clone()));
    v.push(("Expires", decimal_string(t.tunnel_expiration as u64)));
    v.push(("Clients", signed_string(clients)));
    v.push(("Hosts", signed_string(hosts)));
    v.push(("Upload bytes", signed_string(up)));
    v.push(("Download bytes", signed_string(down)));
    assert(kv_view(v@) =~= show_tunnel_spec(*t));
    v
}

/// `rows` has a row keyed `key`.
pub open spec fn has_row(rows: Seq<(Seq<char>, Seq<char>)>, key: Seq<char>) -> bool {
    exists|i: int| 0 <= i < rows.len() && #[trigger] rows[i].0 == key
}

/// Every row keyed `key` shows `value`.
pub open spec fn row_shows(rows: Seq<(Seq<char>, Seq<char>)>, key: Seq<char>, value: Seq<char>) -> bool {
    forall|i: int| 0 <= i < rows.len() && #[trigger] rows[i].0 == key ==> rows[i].1 == value
}

/// Law: the details of a tunnel show each field under its own label:
/// `Clients` the client connection count and `Hosts` the host connection
/// count (zero without status), `Upload bytes` and `Download bytes` the
/// traffic, `Expires` the expiration, and id, name and description as given.
pub proof fn lemma_show_tunnel_rows(t: ShowTunnelResult)
    ensures
        ({
            let rows = show_tunnel_spec(t);
            let (clients, hosts, up, down) = match t.status {
                Some(st) => (
                    st.client_connection_count as int,
                    st.host_connection_count as int,
                    st.total_upload_bytes as int,
                    st.total_download_bytes as int,
                ),
                None => (0int, 0int, 0int, 0int),
            };
            &&& rows.len() == 8
            &&& has_row(rows, "Clients"@) && row_shows(rows, "Clients"@, signed_decimal(clients))
            &&& has_row(rows, "Hosts"@) && row_shows(rows, "Hosts"@, signed_decimal(hosts))
            &&& has_row(rows, "Upload bytes"@) && row_shows(rows, "Upload bytes"@, signed_decimal(up))
            &&& has_row(rows, "Download bytes"@) && row_shows(rows, "Download bytes"@, signed_decimal(down))
            &&& has_row(rows, "Expires"@) && row_shows(rows, "Expires"@, decimal(t.tunnel_expiration as nat))
            &&& has_row(rows, "Tunnel ID"@) && row_shows(rows, "Tunnel ID"@, t.tunnel_id@)
            &&& has_row(rows, "Name"@) && row_shows(rows, "Name"@, t.name@)
            &&& has_row(rows, "Description"@) && row_shows(rows, "Description"@, t.description@)
        }),
{
    reveal_strlit("Tunnel ID");
    reveal_strlit("Name");
    reveal_strlit("Description");
    reveal_strlit("Expires");
    reveal_strlit("Clients");
    reveal_strlit("Hosts");
    reveal_strlit("Upload bytes");
    reveal_strlit("Download bytes");
    let rows = show_tunnel_spec(t);
    assert(rows[0].0 == "Tunnel ID"@ && rows[1].0 == "Name"@ && rows[2].0 == "Description"@);
    assert(rows[3].0 == "Expires"@ && rows[4].0 == "Clients"@ && rows[5].0 == "Hosts"@);
    assert(rows[6].0 == "Upload bytes"@ && rows[7].0 == "Download bytes"@);
    assert("Expires"@[0] != "Clients"@[0]);
}

/// Law: the account limits show each quota under its own label.
pub proof fn lemma_limits_rows(l: LimitsResult)
    ensures
        ({
            let rows = limits_spec(l);
            &&& rows.len() == 9
            &&& has_row(rows, "Remaining bytes"@) && row_shows(rows, "Remaining bytes"@, signed_decimal(l.remaining_bytes as int))
            &&& has_row(rows, "Quota bytes"@) && row_shows(rows, "Quota bytes"@, signed_decimal(l.quota_bytes as int))
            &&& has_row(rows, "Active tunnels"@) && row_shows(rows, "Active tunnels"@, signed_decimal(l.active_tunnels as int))
            &&& has_row(rows, "Max tunnels"@) && row_shows(rows, "Max tunnels"@, signed_decimal(l.max_tunnels as int))
            &&& has_row(rows, "Max ports/tunnel"@) && row_shows(rows, "Max ports/tunnel"@, signed_decimal(l.max_ports_per_tunnel as int))
            &&& has_row(rows, "Max hosts/tunnel"@) && row_shows(rows, "Max hosts/tunnel"@, signed_decimal(l.max_hosts_per_tunnel as int))
            &&& has_row(rows, "Max bandwidth B/s"@) && row_shows(rows, "Max bandwidth B/s"@, signed_decimal(l.max_tunnel_bandwidth_bytes_per_second as int))
            &&& has_row(rows, "Max HTTP requests/min/port"@) && row_shows(rows, "Max HTTP requests/min/port"@, signed_decimal(l.max_http_requests_per_minute_per_port as int))
            &&& has_row(rows, "Max connections/port"@) && row_shows(rows, "Max connections/port"@, signed_decimal(l.max_connections_per_port as int))
        }),
{
    reveal_strlit("Remaining bytes");
    reveal_strlit("Quota bytes");
    reveal_strlit("Active tunnels");
    reveal_strlit("Max tunnels");
    reveal_strlit("Max ports/tunnel");
    reveal_strlit("Max hosts/tunnel");
    reveal_strlit("Max bandwidth B/s");
    reveal_strlit("Max HTTP requests/min/port");
    reveal_strlit("Max connections/port");
    let rows = limits_spec(l);
    assert(rows[0].0 == "Remaining bytes"@ && rows[1].0 == "Quota bytes"@ && rows[2].0 == "Active tunnels"@);
    assert(rows[3].0 == "Max tunnels"@ && rows[4].0 == "Max ports/tunnel"@ && rows[5].0 == "Max hosts/tunnel"@);
    assert(rows[6].0 == "Max bandwidth B/s"@ && rows[7].0 == "Max HTTP requests/min/port"@);
    assert(rows[8].0 == "Max connections/port"@);
    assert("Max ports/tunnel"@[4] != "Max hosts/tunnel"@[4]);
    assert("Quota bytes"@[0] != "Max tunnels"@[0]);
}

/// Law: a created tunnel is shown with its id, name, description and
/// expiration hours, each under its own label.
pub proof fn lemma_created_tunnel_rows(t: CreateTunnelResult)
    ensures
        ({
            let rows = created_tunnel_spec(t);
            &&& rows.len() == 4
            &&& has_row(rows, "Tunnel ID"@) && row_shows(rows, "Tunnel ID"@, t.tunnel_id@)
            &&& has_row(rows, "Name"@) && row_shows(rows, "Name"@, t.name@)
            &&& has_row(rows, "Description"@) && row_shows(rows, "Description"@, t.description@)
            &&& has_row(rows, "Expiration hours"@) && row_shows(rows, "Expiration hours"@, signed_decimal(t.expiration_hours as int))
        }),
{
    reveal_strlit("Tunnel ID");
    reveal_strlit("Name");
    reveal_strlit("Description");
    reveal_strlit("Expiration hours");
    let rows = created_tunnel_spec(t);
    assert(rows[0].0 == "Tunnel ID"@ && rows[1].0 == "Name"@ && rows[2].0 == "Description"@);
    assert(rows[3].0 == "Expiration hours"@);
}

/// Law: a tunnel token is shown with its tunnel id, scope and token, each
/// under its own label.
pub proof fn lemma_token_rows(t: TunnelTokenResult)
    ensures
        ({
            let rows = token_spec(t);
            &&& rows.len() == 3
            &&& has_row(rows, "Tunnel ID"@) && row_shows(rows, "Tunnel ID"@, t.tunnel_id@)
            &&& has_row(rows, "Scope"@) && row_shows(rows, "Scope"@, t.scope@)
            &&& has_row(rows, "Token"@) && row_shows(rows, "Token"@, t.token@)
        }),
{
    reveal_strlit("Tunnel ID");
    reveal_strlit("Scope");
    reveal_strlit("Token");
    let rows = token_spec(t);
    assert(rows[0].0 == "Tunnel ID"@ && rows[1].0 == "Scope"@ && rows[2].0 == "Token"@);
    assert("Scope"@[0] != "Token"@[0]);
}

/// The rows printed for a tunnel token.
pub open spec fn token_spec(t: TunnelTokenResult) -> Seq<(Seq<char>, Seq<char>)> {
    seq![("Tunnel ID"@, t.tunnel_id@), ("Scope"@, t.scope@), ("Token"@, t.token@)]
}

/// The rows printed for a tunnel token.
pub fn token_kv(t: &TunnelTokenResult) -> (r: Vec<(&'static str, String)>)
    ensures
        kv_view(r@) == token_spec(*t),
{
    let mut v: Vec<(&'static str, String)> = Vec::new();
    v.push(("Tunnel ID", t.tunnel_id.clone()));
    v.push(("Scope", t.scope.clone()));
    v.push(("Token", t.token.clone()));
    assert(kv_view(v@) =~= token_spec(*t));
    v
}

/// The rows printed for the account's limits.
pub open spec fn limits_spec(l: LimitsResult) -> Seq<(Seq<char>, Seq<char>)> {
    seq![
        ("Remaining bytes"@, signed_decimal(l.remaining_bytes as int)),
        ("Quota bytes"@, signed_decimal(l.quota_bytes as int)),
        ("Active tunnels"@, signed_decimal(l.active_tunnels as int)),
        ("Max tunnels"@, signed_decimal(l.max_tunnels as int)),
        ("Max ports/tunnel"@, signed_decimal(l.max_ports_per_tunnel as int)),
        ("Max hosts/tunnel"@, signed_decimal(l.max_hosts_per_tunnel as int)),
        ("Max bandwidth B/s"@, signed_decimal(l.max_tunnel_bandwidth_bytes_per_second as int)),
        ("Max HTTP requests/min/port"@, signed_decimal(l.max_http_requests_per_minute_per_port as int)),
        ("Max connections/port"@, signed_decimal(l.max_connections_per_port as int)),
    ]
}

/// The rows printed for the account's limits.
pub fn limits_kv(l: &LimitsResult) -> (r: Vec<(&'static str, String)>)
    ensures
        kv_view(r@) == limits_spec(*l),
{
    let mut v: Vec<(&'static str, String)> = Vec::new();
    v.push(("Remaining bytes", signed_string(l.remaining_bytes)));
    v.push(("Quota bytes", signed_string(l.quota_bytes)));
    v.push(("Active tunnels", signed_string(l.active_tunnels)));
    v.push(("Max tunnels", signed_string(l.max_tunnels as i64)));
    v.push(("Max ports/tunnel", signed_string(l.max_ports_per_tunnel as i64)));
    v.push(("Max hosts/tunnel", signed_string(l.max_hosts_per_tunnel as i64)));
    v.push(("Max bandwidth B/s", signed_string(l.max_tunnel_bandwidth_bytes_per_second)));
    v.push(("Max HTTP requests/min/port", signed_string(l.max_http_requests_per_minute_per_port as i64)));
    v.push(("Max connections/port", signed_string(l.max_connections_per_port as i64)));
    assert(kv_view(v@) =~= limits_spec(*l));
    v
}

/// The header of the tunnel list.
pub open spec fn tunnel_list_header() -> Seq<Seq<char>> {
    seq!["Tunnel ID"@, "Name"@, "Description"@, "Expires"@, "Ports"@]
}

/// One row of the tunnel list.
pub open spec fn tunnel_list_row(t: ListTunnelResult) -> Seq<Seq<char>> {
    seq![t.tunnel_id@, t.name@, t.description@, decimal(t.tunnel_expiration as nat), signed_decimal(t.port_count as int)]
}

/// The column headed `label` exists, and a row shows `value` in it.
pub open spec fn column_shows(
    header: Seq<Seq<char>>,
    row: Seq<Seq<char>>,
    label: Seq<char>,
    value: Seq<char>,
) -> bool {
    &&& exists|j: int| 0 <= j < header.len() && #[trigger] header[j] == label
    &&& forall|j: int| 0 <= j < header.len() && #[trigger] header[j] == label ==> j < row.len() && row[j] == value
}

/// Law: each row of the tunnel list has one cell per column, and shows the
/// tunnel's id, name, description, expiration and port count under the
/// matching headers.
pub proof fn lemma_tunnel_list_columns(t: ListTunnelResult)
    ensures
        tunnel_list_row(t).len() == tunnel_list_header().len(),
        column_shows(tunnel_list_header(), tunnel_list_row(t), "Tunnel ID"@, t.tunnel_id@),
        column_shows(tunnel_list_header(), tunnel_list_row(t), "Name"@, t.name@),
        column_shows(tunnel_list_header(), tunnel_list_row(t), "Description"@, t.description@),
        column_shows(tunnel_list_header(), tunnel_list_row(t), "Expires"@, decimal(t.tunnel_expiration as nat)),
        column_shows(tunnel_list_header(), tunnel_list_row(t), "Ports"@, signed_decimal(t.port_count as int)),
{
    reveal_strlit("Tunnel ID");
    reveal_strlit("Name");
    reveal_strlit("Description");
    reveal_strlit("Expires");
    reveal_strlit("Ports");
    let h = tunnel_list_header();
    assert(h[0] == "Tunnel ID"@ && h[1] == "Name"@ && h[2] == "Description"@ && h[3] == "Expires"@
        && h[4] == "Ports"@);
}

/// Law: each row of a port list has one cell per column, and shows the
/// port, protocol, anonymous access and tunnel id under the matching
/// headers.
pub proof fn lemma_port_list_columns(p: PortResult)
    ensures
        port_list_row(p).len() == port_list_header().len(),
        column_shows(port_list_header(), port_list_row(p), "Port"@, signed_decimal(p.port as int)),
        column_shows(port_list_header(), port_list_row(p), "Protocol"@, p.protocol@),
        column_shows(port_list_header(), port_list_row(p), "Anonymous"@, bool_text(p.allow_anonymous)),
        column_shows(port_list_header(), port_list_row(p), "Tunnel ID"@, p.tunnel_id@),
{
    reveal_strlit("Port");
    reveal_strlit("Protocol");
    reveal_strlit("Anonymous");
    reveal_strlit("Tunnel ID");
    let h = port_list_header();
    assert(h[0] == "Port"@ && h[1] == "Protocol"@ && h[2] == "Anonymous"@ && h[3] == "Tunnel ID"@);
    assert("Anonymous"@[0] != "Tunnel ID"@[0]);
    assert("Port"@.len() != "Protocol"@.len() && "Port"@.len() != "Anonymous"@.len() && "Port"@.len()
        != "Tunnel ID"@.len());
}

fn strings(items: &[&str]) -> (r: Vec<String>)
    ensures
        r@.len() == items@.len(),
        forall|i: int| 0 <= i < items@.len() ==> #[trigger] r@[i]@ == items@[i]@,
{
    let mut out: Vec<String> = Vec::new();
    let mut i: usize = 0;
    while i < items.len()
        invariant
            i <= items@.len(),
            out@.len() == i,
            forall|j: int| 0 <= j < i ==> #[trigger] out@[j]@ == items@[j]@,
        decreases items@.len() - i,
    {
        out.push(owned(items[i]));
        i = i + 1;
    }
    out
}

/// What `list` prints: `No tunnels.`, or the tunnels as a table.
pub fn tunnel_list_text(items: &Vec<ListTunnelResult>) -> (r: String)
    ensures
        items.len() == 0 ==> r@ == "No tunnels."@,
        items.len() > 0 ==> r@ == utf8_full_table(
            tunnel_list_header(),
            Seq::new(items@.len(), |i: int| tunnel_list_row(items@[i])),
        ),
{
    if items.len() == 0 {
        return owned("No tunnels.");
    }
    let header = strings(&["Tunnel ID", "Name", "Description", "Expires", "Ports"]);
    let mut rows: Vec<Vec<String>> = Vec::new();
    let mut i: usize = 0;
    while i < items.len()
        invariant
            i <= items.len(),
            rows@.len() == i,
            forall|k: int| 0 <= k < i ==> row_view(#[trigger] rows@[k]@) == tunnel_list_row(items@[k]),
        decreases items.len() - i,
    {
        let t = &items[i];
        let mut row: Vec<String> = Vec::new();
        row.push(t.tunnel_id.clone());
        row.push(t.name.clone());
        row.push(t.description.clone());
        row.push(decimal_string(t.tunnel_expiration as u64));
        row.push(signed_string(t.port_count as i64));
        assert(row_view(row@) =~= tunnel_list_row(items@[i as int]));
        rows.push(row);
        i = i + 1;
    }
    assert(rows_view(rows@) =~= Seq::new(items@.len(), |k: int| tunnel_list_row(items@[k])));
    proof {
        reveal_strlit("Tunnel ID");
        reveal_strlit("Name");
        reveal_strlit("Description");
        reveal_strlit("Expires");
        reveal_strlit("Ports");
    }
    assert(row_view(header@) =~= tunnel_list_header());
    render_table(header, rows)
}

/// The header of a port list.
pub open spec fn port_list_header() -> Seq<Seq<char>> {
    seq!["Port"@, "Protocol"@, "Anonymous"@, "Tunnel ID"@]
}

/// One row of a port list.
pub open spec fn port_list_row(p: PortResult) -> Seq<Seq<char>> {
    seq![signed_decimal(p.port as int), p.protocol@, bool_text(p.allow_anonymous), p.tunnel_id@]
}

/// What a port listing prints: `No ports.`, or the ports as a table.
pub fn port_list_text(items: &Vec<PortResult>) -> (r: String)
    ensures
        items.len() == 0 ==> r@ == "No ports."@,
        items.len() > 0 ==> r@ == utf8_full_table(
            port_list_header(),
            Seq::new(items@.len(), |i: int| port_list_row(items@[i])),
        ),
{
    if items.len() == 0 {
        return owned("No ports.");
    }
    let header = strings(&["Port", "Protocol", "Anonymous", "Tunnel ID"]);
    let mut rows: Vec<Vec<String>> = Vec::new();
    let mut i: usize = 0;
    while i < items.len()
        invariant
            i <= items.len(),
            rows@.len() == i,
            forall|k: int| 0 <= k < i ==> row_view(#[trigger] rows@[k]@) == port_list_row(items@[k]),
        decreases items.len() - i,
    {
        let p = &items[i];
        let mut row: Vec<String> = Vec::new();
        row.push(signed_string(p.port as i64));
        row.push(p.protocol.clone());
        row.push(bool_string(p.allow_anonymous));
        row.push(p.tunnel_id.clone());
        assert(row_view(row@) =~= port_list_row(items@[i as int]));
        rows.push(row);
        i = i + 1;
    }
    assert(rows_view(rows@) =~= Seq::new(items@.len(), |k: int| port_list_row(items@[k])));
    proof {
        reveal_strlit("Port");
        reveal_strlit("Protocol");
        reveal_strlit("Anonymous");
        reveal_strlit("Tunnel ID");
    }
    assert(row_view(header@) =~= port_list_header());
    render_table(header, rows)
}

} // verus!
