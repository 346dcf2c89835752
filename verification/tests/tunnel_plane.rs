use devbridge::control::settings::Settings;
use devbridge::tunnel::websocket::{
    handshake_request, upgrade_accepted, Frame, ReadOutcome, WsReadBuffer,
};
use devbridge::tunnel::{
    bind_falls_back, check_connect_ports, forward_banner, host_banner, tunnel_url, HostRouter,
    PortAllowList, RelayRole, TunnelAuth, TunnelConfig, TunnelError,
};

fn config(auth: TunnelAuth) -> TunnelConfig {
    TunnelConfig::new(&Settings::default(), "abcde234".to_string(), auth)
}

#[test]
fn first_channel_carries_the_port_notification() {
    let mut router = HostRouter::new();
    assert!(!router.routes(3));
    assert_eq!(router.on_open(3), RelayRole::PortNotification);
    assert_eq!(router.on_open(4), RelayRole::Relay);
    assert!(router.routes(3));
    assert!(router.routes(4));
    router.on_close(3);
    assert!(!router.routes(3));
    assert!(router.routes(4));
    assert_eq!(router.on_open(5), RelayRole::Relay);
}

#[test]
fn notification_fills_only_an_empty_allow_list() {
    let mut allowed = PortAllowList::from_configured(&vec![]);
    assert!(allowed.is_empty());
    allowed.merge_notification(&vec![8080, 9090]);
    assert!(allowed.contains(8080));
    assert_eq!(allowed.admits(9090), Some(9090));
    let mut configured = PortAllowList::from_configured(&vec![22]);
    configured.merge_notification(&vec![8080]);
    assert!(configured.contains(22));
    assert!(!configured.contains(8080));
    assert_eq!(configured.admits(8080), None);
    assert_eq!(configured.admits(22 + 65536), None);
}

#[test]
fn host_banner_lists_each_port() {
    let c = config(TunnelAuth::Token("t".to_string()));
    assert_eq!(tunnel_url(&c, 8080), "https://abcde234-8080.devbridge-s2.hwtunnel.com");
    let lines = host_banner(&c, &vec![8080, 22]);
    assert_eq!(
        lines,
        vec![
            "Hosting port: 8080".to_string(),
            "Tunnel URL: https://abcde234-8080.devbridge-s2.hwtunnel.com".to_string(),
            "Hosting port: 22".to_string(),
            "Tunnel URL: https://abcde234-22.devbridge-s2.hwtunnel.com".to_string(),
            "Ready to accept connections".to_string(),
        ]
    );
}

#[test]
fn connect_needs_ports() {
    let e = check_connect_ports(&vec![]).unwrap_err();
    assert_eq!(e, TunnelError::NoPorts);
    assert_eq!(e.message_text(), "no TCP ports were supplied for local forwarding");
    assert!(check_connect_ports(&vec![22]).is_ok());
}

#[test]
fn local_forward_falls_back_when_port_is_taken() {
    assert!(bind_falls_back(true));
    assert!(!bind_falls_back(false));
    assert_eq!(forward_banner(8080, 8080), "Forwarding localhost:8080 -> tunnel port:8080");
    assert_eq!(
        forward_banner(50123, 8080),
        "Forwarding localhost:50123 -> tunnel port:8080 (port 8080 in use)"
    );
}

#[test]
fn host_handshake_carries_token_and_cookie() {
    let c = config(TunnelAuth::Token("tok".to_string()));
    let h = handshake_request(&c, true, "KEY==".to_string());
    assert_eq!(h.uri, "wss://abcde234.devbridge-s2.hwtunnel.com/abcde234");
    assert_eq!(h.sni_host, "abcde234.devbridge-s2.hwtunnel.com");
    let names: Vec<&str> = h.headers.iter().map(|(n, _)| n.as_str()).collect();
    assert_eq!(
        names,
        vec!["Host", "Connection", "Upgrade", "Sec-WebSocket-Version", "Sec-WebSocket-Key", "Sec-WebSocket-Protocol", "Cookie"]
    );
    assert_eq!(h.headers[5].1, "devbridge-v1, tok");
    assert_eq!(h.headers[6].1, "APP_COOKIE=7");
}

#[test]
fn connect_handshake_with_api_key() {
    let c = config(TunnelAuth::ApiKey("k".to_string()));
    let h = handshake_request(&c, false, "KEY==".to_string());
    assert_eq!(h.uri, "wss://abcde234.devbridge-s2.hwtunnel.com/");
    assert_eq!(h.headers[5].1, "devbridge-v1");
    assert_eq!(h.headers[6].0, "X-API-Key");
    assert_eq!(h.headers.len(), 7);
    assert!(upgrade_accepted(101));
    assert!(!upgrade_accepted(200));
}

#[test]
fn websocket_reads_hand_out_every_byte_in_order() {
    let mut b = WsReadBuffer::new();
    assert!(!b.has_pending());
    match b.on_frame(Frame::Binary(vec![1, 2, 3, 4, 5]), 2) {
        ReadOutcome::Data(d) => assert_eq!(d, vec![1, 2]),
        other => panic!("unexpected {other:?}"),
    }
    assert!(b.has_pending());
    assert_eq!(b.take(2), vec![3, 4]);
    assert_eq!(b.take(10), vec![5]);
    assert!(!b.has_pending());
    match b.on_frame(Frame::Text("hé".to_string()), 10) {
        ReadOutcome::Data(d) => assert_eq!(d, "hé".as_bytes().to_vec()),
        other => panic!("unexpected {other:?}"),
    }
    assert!(matches!(b.on_frame(Frame::Other, 10), ReadOutcome::NextFrame));
    assert!(matches!(b.on_frame(Frame::Close, 10), ReadOutcome::EndOfStream));
}
