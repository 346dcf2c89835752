//! DevBridge tunnel data plane: the tunnel's configuration, the routing of
//! gateway channels while hosting, the ports a host forwards, and the
//! messages that hosting and connecting print.
use vstd::prelude::*;
use crate::control::settings::Settings;
use crate::text::{decimal, owned, push_decimal, push_str};

pub mod websocket;

verus! {

/// How the tunnel endpoint authenticates to the gateway.
#[derive(Debug, Clone)]
pub enum TunnelAuth {
    Token(String),
    ApiKey(String),
}

/// A tunnel and the gateway that serves it.
#[derive(Debug, Clone)]
pub struct TunnelConfig {
    pub tunnel_id: String,
    pub gateway_addr: String,
    pub gateway_host: String,
    pub auth: TunnelAuth,
}

impl TunnelConfig {
    /// The configuration of `tunnel_id` on the settings' gateway.
    pub fn new(settings: &Settings, tunnel_id: String, auth: TunnelAuth) -> (r: TunnelConfig)
        ensures
            r.tunnel_id == tunnel_id,
            r.gateway_addr@ == settings.gateway_addr@,
            r.gateway_host@ == settings.gateway_host@,
            r.auth == auth,
    {
        TunnelConfig {
            tunnel_id,
            gateway_addr: settings.gateway_addr.clone(),
            gateway_host: settings.gateway_host.clone(),
            auth,
        }
    }
}

/// What a newly opened gateway channel carries.
#[derive(Debug, Clone, Copy, PartialEq, Eq, Structural)]
pub enum RelayRole {
    /// The gateway's notice of the tunnel's ports.
    PortNotification,
    /// A relay session for forwarded connections.
    Relay,
}

/// The gateway channels of a hosting session: which are open, and whether
/// the first one has yet to arrive.
#[derive(Debug)]
pub struct HostRouter {
    channels: Vec<u32>,
    first_relay: bool,
}

impl HostRouter {
    /// The open channels.
    pub closed spec fn open_channels(&self) -> Set<u32> {
        self.channels@.to_set()
    }

    /// No channel has been opened yet.
    pub closed spec fn awaiting_first(&self) -> bool {
        self.first_relay
    }

    /// A session with no channel opened yet.
    pub fn new() -> (r: HostRouter)
        ensures
            r.open_channels() == Set::<u32>::empty(),
            r.awaiting_first(),
    {
        let r = HostRouter { channels: Vec::new(), first_relay: true };
        assert(r.channels@.to_set() =~= Set::<u32>::empty());
        r
    }

    /// Whether data for channel `id` is forwarded.
    pub fn routes(&self, id: u32) -> (r: bool)
        ensures
            r == self.open_channels().contains(id),
    {
        let mut i: usize = 0;
        while i < self.channels.len()
            invariant
                i <= self.channels@.len(),
                forall|j: int| 0 <= j < i ==> self.channels@[j] != id,
            decreases self.channels@.len() - i,
        {
            if self.channels[i] == id {
                assert(self.channels@.contains(id));
                return true;
            }
            i = i + 1;
        }
        assert(!self.channels@.contains(id));
        false
    }

    /// Opens channel `id`; the first channel of the session carries the
    /// port notification, every later one a relay session.
    pub fn on_open(&mut self, id: u32) -> (role: RelayRole)
        ensures
            final(self).open_channels() == old(self).open_channels().insert(id),
            role == (if old(self).awaiting_first() {
                RelayRole::PortNotification
            } else {
                RelayRole::Relay
            }),
            !final(self).awaiting_first(),
    {
        let ghost before = self.channels@;
        if !self.routes(id) {
            self.channels.push(id);
        }
        assert forall|x: u32| self.channels@.to_set().contains(x) <==> before.to_set().insert(id).contains(x) by {
            lemma_push_contains(before, id, x);
        }
        assert(self.channels@.to_set() =~= old(self).channels@.to_set().insert(id));
        let role = if self.first_relay {
            RelayRole::PortNotification
        } else {
            RelayRole::Relay
        };
        self.first_relay = false;
        role
    }

    /// Closes channel `id` (also after a failed write to it).
    pub fn on_close(&mut self, id: u32)
        ensures
            final(self).open_channels() == old(self).open_channels().remove(id),
            final(self).awaiting_first() == old(self).awaiting_first(),
    {
        let mut kept: Vec<u32> = Vec::new();
        let mut i: usize = 0;
        while i < self.channels.len()
            invariant
                i <= self.channels@.len(),
                forall|x: u32| #[trigger] kept@.contains(x) <==> (self.channels@.take(i as int).contains(x) && x != id),
            decreases self.channels@.len() - i,
        {
            let c = self.channels[i];
            let ghost before = kept@;
            if c != id {
                kept.push(c);
            }
            proof {
                let t0 = self.channels@.take(i as int);
                assert(self.channels@.take(i + 1) =~= t0.push(c));
                assert forall|x: u32| #[trigger] kept@.contains(x) <==> (self.channels@.take(i + 1).contains(x) && x != id) by {
                    lemma_push_contains(t0, c, x);
                    if c != id {
                        lemma_push_contains(before, c, x);
                    }
                }
            }
            i = i + 1;
        }
        assert(self.channels@.take(self.channels@.len() as int) =~= self.channels@);
        self.channels = kept;
        assert(self.channels@.to_set() =~= old(self).channels@.to_set().remove(id));
    }
}

proof fn lemma_push_contains(s: Seq<u32>, c: u32, x: u32)
    ensures
        s.push(c).contains(x) <==> (s.contains(x) || x == c),
{
    if s.contains(x) {
        let j = choose|j: int| 0 <= j < s.len() && s[j] == x;
        assert(s.push(c)[j] == x);
    }
    if x == c {
        assert(s.push(c)[s.len() as int] == c);
    }
    if s.push(c).contains(x) {
        let j = choose|j: int| 0 <= j < s.push(c).len() && s.push(c)[j] == x;
        if j < s.len() {
            assert(s[j] == x);
        }
    }
}

/// The TCP ports that a host forwards to: those configured, or, when none
/// were, those that the gateway announces.
#[derive(Debug, Clone)]
pub struct PortAllowList {
    ports: Vec<u16>,
}

impl PortAllowList {
    /// The ports allowed.
    pub closed spec fn allowed(&self) -> Set<u16> {
        self.ports@.to_set()
    }

    /// The configured ports.
    pub fn from_configured(ports: &Vec<u16>) -> (r: PortAllowList)
        ensures
            r.allowed() == ports@.to_set(),
    {
        PortAllowList { ports: ports.clone() }
    }

    /// Whether no port is allowed.
    pub fn is_empty(&self) -> (r: bool)
        ensures
            r == (self.allowed() == Set::<u16>::empty()),
    {
        if self.ports.len() == 0 {
            assert(self.ports@.to_set() =~= Set::<u16>::empty());
            true
        } else {
            assert(self.ports@.to_set().contains(self.ports@[0]));
            false
        }
    }

    /// Whether `port` is allowed.
    pub fn contains(&self, port: u16) -> (r: bool)
        ensures
            r == self.allowed().contains(port),
    {
        let mut i: usize = 0;
        while i < self.ports.len()
            invariant
                i <= self.ports@.len(),
                forall|j: int| 0 <= j < i ==> self.ports@[j] != port,
            decreases self.ports@.len() - i,
        {
            if self.ports[i] == port {
                assert(self.ports@.contains(port));
                return true;
            }
            i = i + 1;
        }
        assert(!self.ports@.contains(port));
        false
    }

    /// Takes the gateway's port notification: it fills an empty list and
    /// never replaces configured ports.
    pub fn merge_notification(&mut self, notified: &Vec<u16>)
        ensures
            old(self).allowed() == Set::<u16>::empty() ==> final(self).allowed() == notified@.to_set(),
            old(self).allowed() != Set::<u16>::empty() ==> final(self).allowed() == old(self).allowed(),
    {
        if self.is_empty() {
            self.ports = notified.clone();
        }
    }

    /// The local port a forwarding request for `port_to_connect` reaches: the
    /// port itself when it is a TCP port and allowed.
    pub fn admits(&self, port_to_connect: u32) -> (r: Option<u16>)
        ensures
            r matches Some(p) ==> p == port_to_connect && self.allowed().contains(p),
            r is None ==> port_to_connect > 65535 || !self.allowed().contains(port_to_connect as u16),
    {
        if port_to_connect > 65535 {
            return None;
        }
        let p = port_to_connect as u16;
        if self.contains(p) {
            Some(p)
        } else {
            None
        }
    }
}

/// The public URL of a hosted port.
pub open spec fn tunnel_url_spec(config: TunnelConfig, port: u16) -> Seq<char> {
    "https://"@ + config.tunnel_id@ + "-"@ + decimal(port as nat) + "."@ + config.gateway_host@
}

/// The two lines printed for one hosted port.
pub open spec fn host_port_lines(config: TunnelConfig, port: u16) -> Seq<Seq<char>> {
    seq!["Hosting port: "@ + decimal(port as nat), "Tunnel URL: "@ + tunnel_url_spec(config, port)]
}

/// The lines printed for the hosted ports, in order.
pub open spec fn host_lines(config: TunnelConfig, ports: Seq<u16>) -> Seq<Seq<char>>
    decreases ports.len(),
{
    if ports.len() == 0 {
        Seq::empty()
    } else {
        host_lines(config, ports.drop_last()) + host_port_lines(config, ports.last())
    }
}

/// Law: the hosting lines hold two lines per port, in the order of the
/// ports: the `i`-th port's number, then its tunnel URL.
pub proof fn lemma_host_lines_per_port(config: TunnelConfig, ports: Seq<u16>)
    ensures
        host_lines(config, ports).len() == 2 * ports.len(),
        forall|i: int|
            #![trigger ports[i]]
            0 <= i < ports.len() ==> host_lines(config, ports)[2 * i] == host_port_lines(config, ports[i])[0]
                && host_lines(config, ports)[2 * i + 1] == host_port_lines(config, ports[i])[1],
        forall|i: int|
            #![trigger ports[i]]
            0 <= i < ports.len() ==> host_port_lines(config, ports[i])[0] == "Hosting port: "@ + decimal(
                ports[i] as nat,
            ) && host_port_lines(config, ports[i])[1] == "Tunnel URL: "@ + tunnel_url_spec(config, ports[i]),
    decreases ports.len(),
{
    if ports.len() > 0 {
        let init = ports.drop_last();
        lemma_host_lines_per_port(config, init);
        let h = host_lines(config, ports);
        let hi = host_lines(config, init);
        assert(h == hi + host_port_lines(config, ports.last()));
        assert forall|i: int|
            #![trigger ports[i]]
            0 <= i < ports.len() implies h[2 * i] == host_port_lines(config, ports[i])[0] && h[2 * i + 1]
                == host_port_lines(config, ports[i])[1] by {
            if i < init.len() {
                assert(init[i] == ports[i]);
                assert(h[2 * i] == hi[2 * i]);
                assert(h[2 * i + 1] == hi[2 * i + 1]);
            }
        }
    }
}

/// The views of a list of strings.
pub open spec fn lines_view(lines: Seq<String>) -> Seq<Seq<char>> {
    Seq::new(lines.len(), |i: int| lines[i]@)
}

/// The public URL of a hosted port.
pub fn tunnel_url(config: &TunnelConfig, port: u16) -> (r: String)
    ensures
        r@ == tunnel_url_spec(*config, port),
{
    let mut s = owned("https://");
    push_str(&mut s, config.tunnel_id.as_str());
    push_str(&mut s, "-");
    push_decimal(&mut s, port as u64);
    push_str(&mut s, ".");
    push_str(&mut s, config.gateway_host.as_str());
    s
}

/// The banner of a hosting session: each port with its URL, then
/// `Ready to accept connections`.
pub fn host_banner(config: &TunnelConfig, ports: &Vec<u16>) -> (r: Vec<String>)
    ensures
        lines_view(r@) == host_lines(*config, ports@) + seq!["Ready to accept connections"@],
{
    let mut out: Vec<String> = Vec::new();
    let mut i: usize = 0;
    while i < ports.len()
        invariant
            i <= ports@.len(),
            lines_view(out@) == host_lines(*config, ports@.take(i as int)),
        decreases ports@.len() - i,
    {
        let port = ports[i];
        let mut a = owned("Hosting port: ");
        push_decimal(&mut a, port as u64);
        let mut b = owned("Tunnel URL: ");
        let u = tunnel_url(config, port);
        push_str(&mut b, u.as_str());
        out.push(a);
        out.push(b);
        assert(ports@.take(i + 1).drop_last() =~= ports@.take(i as int));
        assert(lines_view(out@) =~= host_lines(*config, ports@.take(i + 1)));
        i = i + 1;
    }
    out.push(owned("Ready to accept connections"));
    assert(ports@.take(ports@.len() as int) =~= ports@);
    assert(lines_view(out@) =~= host_lines(*config, ports@) + seq!["Ready to accept connections"@]);
    out
}

/// Why a tunnel session cannot start.
#[derive(Debug, Clone, Copy, PartialEq, Eq, Structural)]
pub enum TunnelError {
    /// Connecting needs at least one TCP port to forward.
    NoPorts,
}

impl TunnelError {
    /// The text of the error.
    pub fn message_text(&self) -> (r: String)
        ensures
            r@ == "no TCP ports were supplied for local forwarding"@,
    {
        owned("no TCP ports were supplied for local forwarding")
    }
}

/// A connection needs at least one port to forward.
pub fn check_connect_ports(ports: &Vec<u16>) -> (r: Result<(), TunnelError>)
    ensures
        r is Ok <==> ports@.len() > 0,
        r matches Err(e) ==> e == TunnelError::NoPorts,
{
    if ports.len() == 0 {
        Err(TunnelError::NoPorts)
    } else {
        Ok(())
    }
}

/// Whether a failed bind of the tunnel's port falls back to any free local
/// port: only when the port is already in use.
pub fn bind_falls_back(address_in_use: bool) -> (r: bool)
    ensures
        r == address_in_use,
{
    address_in_use
}

/// The line that announces a local forward.
pub open spec fn forward_banner_spec(local_port: u16, remote_port: u16) -> Seq<char> {
    let base = "Forwarding localhost:"@ + decimal(local_port as nat) + " -> tunnel port:"@ + decimal(
        remote_port as nat,
    );
    if local_port == remote_port {
        base
    } else {
        base + " (port "@ + decimal(remote_port as nat) + " in use)"@
    }
}

/// The line that announces a local forward, noting when the tunnel's port
/// was taken locally.
pub fn forward_banner(local_port: u16, remote_port: u16) -> (r: String)
    ensures
        r@ == forward_banner_spec(local_port, remote_port),
{
    let mut s = owned("Forwarding localhost:");
    push_decimal(&mut s, local_port as u64);
    push_str(&mut s, " -> tunnel port:");
    push_decimal(&mut s, remote_port as u64);
    if local_port != remote_port {
        push_str(&mut s, " (port ");
        push_decimal(&mut s, remote_port as u64);
        push_str(&mut s, " in use)");
    }
    s
}

} // verus!
