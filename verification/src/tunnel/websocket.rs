//! The gateway's WebSocket: the upgrade request that opens it, and the
//! byte stream that its frames carry.
use vstd::prelude::*;
use vstd::utf8::encode_utf8;
use crate::tunnel::{TunnelAuth, TunnelConfig};
use crate::http::fields_view;
use crate::text::{owned, push_str};

verus! {

/// The WebSocket upgrade request: its URI and headers, in order.
#[derive(Debug, Clone)]
pub struct HandshakeRequest {
    pub uri: String,
    pub sni_host: String,
    pub headers: Vec<(String, String)>,
}

/// The host name the gateway serves the tunnel under.
pub open spec fn sni_host_spec(config: TunnelConfig) -> Seq<char> {
    config.tunnel_id@ + "."@ + config.gateway_host@
}

/// The request path: the tunnel id when hosting, the root when connecting.
pub open spec fn path_spec(config: TunnelConfig, host_mode: bool) -> Seq<char> {
    if host_mode {
        "/"@ + config.tunnel_id@
    } else {
        "/"@
    }
}

/// The headers of the upgrade request: the WebSocket handshake with the
/// given key, then the credentials, then the session cookie when hosting.
pub open spec fn handshake_headers(config: TunnelConfig, host_mode: bool, key: Seq<char>) -> Seq<(Seq<char>, Seq<char>)> {
    let base = seq![
        ("Host"@, sni_host_spec(config)),
        ("Connection"@, "Upgrade"@),
        ("Upgrade"@, "websocket"@),
        ("Sec-WebSocket-Version"@, "13"@),
        ("Sec-WebSocket-Key"@, key),
    ];
    let authed = match config.auth {
        TunnelAuth::Token(token) => base.push(("Sec-WebSocket-Protocol"@, "devbridge-v1, "@ + token@)),
        TunnelAuth::ApiKey(api_key) => base.push(("Sec-WebSocket-Protocol"@, "devbridge-v1"@)).push(
            ("X-API-Key"@, api_key@),
        ),
    };
    if host_mode {
        authed.push(("Cookie"@, "APP_COOKIE=7"@))
    } else {
        authed
    }
}

fn header(name: &str, value: String) -> (r: (String, String))
    ensures
        r.0@ == name@,
        r.1 == value,
{
    (owned(name), value)
}

/// The upgrade request that opens the tunnel's WebSocket, with the random
/// `Sec-WebSocket-Key` given.
pub fn handshake_request(config: &TunnelConfig, host_mode: bool, key: String) -> (r: HandshakeRequest)
    ensures
        r.sni_host@ == sni_host_spec(*config),
        r.uri@ == "wss://"@ + sni_host_spec(*config) + path_spec(*config, host_mode),
        fields_view(r.headers@) == handshake_headers(*config, host_mode, key@),
{
    let mut sni = config.tunnel_id.clone();
    push_str(&mut sni, ".");
    push_str(&mut sni, config.gateway_host.as_str());
    let mut uri = owned("wss://");
    push_str(&mut uri, sni.as_str());
    if host_mode {
        push_str(&mut uri, "/");
        push_str(&mut uri, config.tunnel_id.as_str());
    } else {
        push_str(&mut uri, "/");
    }
    let mut headers: Vec<(String, String)> = Vec::new();
    headers.push(header("Host", sni.clone()));
    headers.push(header("Connection", owned("Upgrade")));
    headers.push(header("Upgrade", owned("websocket")));
    headers.push(header("Sec-WebSocket-Version", owned("13")));
    headers.push(header("Sec-WebSocket-Key", key));
    match &config.auth {
        TunnelAuth::Token(token) => {
            let mut v = owned("devbridge-v1, ");
            push_str(&mut v, token.as_str());
            headers.push(header("Sec-WebSocket-Protocol", v));
        },
        TunnelAuth::ApiKey(api_key) => {
            headers.push(header("Sec-WebSocket-Protocol", owned("devbridge-v1")));
            headers.push(header("X-API-Key", api_key.clone()));
        },
    }
    if host_mode {
        headers.push(header("Cookie", owned("APP_COOKIE=7")));
    }
    assert(fields_view(headers@) =~= handshake_headers(*config, host_mode, key@));
    HandshakeRequest { uri, sni_host: sni, headers }
}

/// Law: the upgrade request names the tunnel's own host: its first header
/// is `Host`, no other header is named `Host`, and its value is the tunnel
/// id, a dot and the gateway host, which is also the SNI host and the
/// authority of the URI.
pub proof fn lemma_handshake_host(config: TunnelConfig, host_mode: bool, key: Seq<char>)
    ensures
        ({
            let h = handshake_headers(config, host_mode, key);
            let host = config.tunnel_id@ + "."@ + config.gateway_host@;
            &&& h.len() > 0
            &&& h[0] == ("Host"@, host)
            &&& forall|i: int| 0 <= i < h.len() && #[trigger] h[i].0 == "Host"@ ==> h[i].1 == host
            &&& sni_host_spec(config) == host
        }),
{
    reveal_strlit("Host");
    reveal_strlit("Connection");
    reveal_strlit("Upgrade");
    reveal_strlit("Sec-WebSocket-Version");
    reveal_strlit("Sec-WebSocket-Key");
    reveal_strlit("Sec-WebSocket-Protocol");
    reveal_strlit("X-API-Key");
    reveal_strlit("Cookie");
    let h = handshake_headers(config, host_mode, key);
    assert forall|i: int| 0 <= i < h.len() && #[trigger] h[i].0 == "Host"@ implies i == 0 by {
        if i > 0 {
            assert(h[i].0.len() != 4);
        }
    }
}

/// Law: the upgrade request authenticates as configured: with a token the
/// protocol header offers `devbridge-v1` followed by the token; with an API
/// key it offers `devbridge-v1` and the key goes in `X-API-Key`. A host
/// session adds the gateway's affinity cookie last.
pub proof fn lemma_handshake_auth(config: TunnelConfig, host_mode: bool, key: Seq<char>)
    ensures
        ({
            let h = handshake_headers(config, host_mode, key);
            &&& h[4] == ("Sec-WebSocket-Key"@, key)
            &&& match config.auth {
                TunnelAuth::Token(t) => h[5] == ("Sec-WebSocket-Protocol"@, "devbridge-v1, "@ + t@)
                    && h.len() == (if host_mode { 7int } else { 6int }),
                TunnelAuth::ApiKey(k) => h[5] == ("Sec-WebSocket-Protocol"@, "devbridge-v1"@) && h[6]
                    == ("X-API-Key"@, k@) && h.len() == (if host_mode { 8int } else { 7int }),
            }
            &&& host_mode ==> h.last() == ("Cookie"@, "APP_COOKIE=7"@)
        }),
{
}

/// Law: a host session upgrades at the path of its tunnel id, a client
/// session at the root; either way the request asks for a version 13
/// WebSocket upgrade.
pub proof fn lemma_handshake_path_and_upgrade(config: TunnelConfig, host_mode: bool, key: Seq<char>)
    ensures
        host_mode ==> path_spec(config, host_mode) == seq!['/'] + config.tunnel_id@,
        !host_mode ==> path_spec(config, host_mode) == seq!['/'],
        ({
            let h = handshake_headers(config, host_mode, key);
            &&& h[1] == ("Connection"@, "Upgrade"@)
            &&& h[2] == ("Upgrade"@, "websocket"@)
            &&& h[3] == ("Sec-WebSocket-Version"@, "13"@)
        }),
{
    reveal_strlit("/");
}

/// The gateway accepted the upgrade: `101 Switching Protocols`.
pub fn upgrade_accepted(status: u16) -> (r: bool)
    ensures
        r == (status == 101),
{
    status == 101
}

/// A WebSocket message as the byte stream sees it.
#[derive(Debug, Clone)]
pub enum Frame {
    Binary(Vec<u8>),
    Text(String),
    /// A close frame, or the end of the stream.
    Close,
    /// A ping, pong or raw frame: carries no stream data.
    Other,
}

/// The bytes a frame adds to the stream.
pub open spec fn frame_payload(frame: Frame) -> Seq<u8> {
    match frame {
        Frame::Binary(data) => data@,
        Frame::Text(text) => encode_utf8(text@),
        _ => Seq::empty(),
    }
}

/// What one read of the stream gives.
#[derive(Debug, Clone)]
pub enum ReadOutcome {
    /// These bytes.
    Data(Vec<u8>),
    /// The stream ended.
    EndOfStream,
    /// Nothing yet: wait for the next frame.
    NextFrame,
}

/// The byte stream carried by the gateway WebSocket: a frame's payload is
/// handed out in reads of bounded size, in order, without loss.
pub struct WsReadBuffer {
    pending: Vec<u8>,
    received: Ghost<Seq<u8>>,
    delivered: Ghost<Seq<u8>>,
}

impl WsReadBuffer {
    /// Bytes received but not yet read.
    pub closed spec fn pending_bytes(&self) -> Seq<u8> {
        self.pending@
    }

    /// All payload bytes received so far, in order.
    pub closed spec fn received_bytes(&self) -> Seq<u8> {
        self.received@
    }

    /// All bytes handed out by reads so far, in order.
    pub closed spec fn delivered_bytes(&self) -> Seq<u8> {
        self.delivered@
    }

    /// Every received byte is either handed out or pending, in order.
    pub closed spec fn wf(&self) -> bool {
        self.delivered@ + self.pending@ == self.received@
    }

    /// An empty stream.
    pub fn new() -> (r: WsReadBuffer)
        ensures
            r.wf(),
            r.pending_bytes().len() == 0,
            r.received_bytes().len() == 0,
            r.delivered_bytes().len() == 0,
    {
        let r = WsReadBuffer { pending: Vec::new(), received: Ghost(Seq::empty()), delivered: Ghost(Seq::empty()) };
        assert(r.delivered@ + r.pending@ =~= r.received@);
        r
    }

    /// Whether bytes wait to be read.
    pub fn has_pending(&self) -> (r: bool)
        ensures
            r == (self.pending_bytes().len() > 0),
    {
        self.pending.len() > 0
    }

    /// Hands out up to `room` pending bytes.
    pub fn take(&mut self, room: usize) -> (r: Vec<u8>)
        requires
            old(self).wf(),
        ensures
            final(self).wf(),
            r@ == old(self).pending_bytes().take(
                if room < old(self).pending_bytes().len() {
                    room as int
                } else {
                    old(self).pending_bytes().len() as int
                },
            ),
            r@ + final(self).pending_bytes() == old(self).pending_bytes(),
            final(self).received_bytes() == old(self).received_bytes(),
            final(self).delivered_bytes() == old(self).delivered_bytes() + r@,
    {
        let n = if room < self.pending.len() { room } else { self.pending.len() };
        let mut out: Vec<u8> = Vec::new();
        let mut rest: Vec<u8> = Vec::new();
        let mut i: usize = 0;
        while i < self.pending.len()
            invariant
                n <= self.pending@.len(),
                i <= self.pending@.len(),
                out@ == self.pending@.take(if i < n { i as int } else { n as int }),
                rest@ == (if i <= n { Seq::<u8>::empty() } else { self.pending@.subrange(n as int, i as int) }),
            decreases self.pending@.len() - i,
        {
            if i < n {
                out.push(self.pending[i]);
            } else {
                rest.push(self.pending[i]);
            }
            i = i + 1;
            assert(out@ =~= self.pending@.take(if i < n { i as int } else { n as int }));
            assert(rest@ =~= (if i <= n { Seq::<u8>::empty() } else { self.pending@.subrange(n as int, i as int) }));
        }
        let ghost old_pending = self.pending@;
        assert(out@ + self.pending@.subrange(n as int, self.pending@.len() as int) =~= old_pending);
        if n == self.pending.len() {
            assert(rest@ =~= self.pending@.subrange(n as int, self.pending@.len() as int));
        }
        self.pending = rest;
        proof {
            self.delivered = Ghost(self.delivered@ + out@);
            assert(self.delivered@ + self.pending@ =~= old(self).delivered@ + old_pending);
        }
        out
    }

    /// Reads from the stream when nothing is pending: a data frame's
    /// payload becomes pending and its first `room` bytes are handed out; a
    /// close frame ends the stream; other frames are skipped.
    pub fn on_frame(&mut self, frame: Frame, room: usize) -> (r: ReadOutcome)
        requires
            old(self).wf(),
            old(self).pending_bytes().len() == 0,
        ensures
            final(self).wf(),
            final(self).received_bytes() == old(self).received_bytes() + frame_payload(frame),
            match frame {
                Frame::Close => r is EndOfStream,
                Frame::Other => r is NextFrame,
                _ => r matches ReadOutcome::Data(d) && d@ == frame_payload(frame).take(
                    if room < frame_payload(frame).len() {
                        room as int
                    } else {
                        frame_payload(frame).len() as int
                    },
                ) && final(self).delivered_bytes() == old(self).delivered_bytes() + d@,
            },
            !(frame is Binary || frame is Text) ==> final(self).delivered_bytes() == old(self).delivered_bytes(),
    {
        match frame {
            Frame::Binary(data) => {
                proof {
                    self.received = Ghost(self.received@ + data@);
                }
                self.pending = data;
                assert(self.delivered@ + self.pending@ =~= self.received@);
                ReadOutcome::Data(self.take(room))
            },
            Frame::Text(text) => {
                let bytes = text_bytes(text.as_str());
                proof {
                    self.received = Ghost(self.received@ + bytes@);
                }
                self.pending = bytes;
                assert(self.delivered@ + self.pending@ =~= self.received@);
                ReadOutcome::Data(self.take(room))
            },
            Frame::Close => {
                assert(self.received@ + Seq::<u8>::empty() =~= self.received@);
                ReadOutcome::EndOfStream
            },
            Frame::Other => {
                assert(self.received@ + Seq::<u8>::empty() =~= self.received@);
                ReadOutcome::NextFrame
            },
        }
    }
}

fn text_bytes(s: &str) -> (r: Vec<u8>)
    ensures
        r@ == encode_utf8(s@),
{
    let b = s.as_bytes();
    let mut out: Vec<u8> = Vec::new();
    let mut i: usize = 0;
    while i < b.len()
        invariant
            b@ == encode_utf8(s@),
            i <= b@.len(),
            out@ == b@.take(i as int),
        decreases b@.len() - i,
    {
        out.push(b[i]);
        i = i + 1;
        assert(out@ =~= b@.take(i as int));
    }
    assert(out@ =~= b@);
    out
}

/// Law: whatever the sequence of frames and read sizes, the bytes handed out
/// followed by the bytes pending are exactly the payloads received, in
/// order.
pub proof fn lemma_stream_conservation(buffer: WsReadBuffer)
    requires
        buffer.wf(),
    ensures
        buffer.delivered_bytes() + buffer.pending_bytes() == buffer.received_bytes(),
{
}

} // verus!
