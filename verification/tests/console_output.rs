use comfy_table::{presets::UTF8_FULL, Table};
use devbridge::control::api::{
    CreateTunnelResult, LimitsResult, ListTunnelResult, PortResult, ShowTunnelResult,
    TunnelStatus, TunnelTokenResult,
};
use devbridge::frontend::{
    created_tunnel_kv, kv_table, limits_kv, port_list_text, show_tunnel_kv, token_kv,
    tunnel_list_text,
};

fn drawn(header: Option<Vec<&str>>, rows: Vec<Vec<String>>) -> String {
    let mut table = Table::new();
    table.load_preset(UTF8_FULL);
    if let Some(h) = header {
        table.set_header(h);
    }
    for row in rows {
        table.add_row(row);
    }
    table.to_string()
}

#[test]
fn empty_lists_say_so() {
    assert_eq!(tunnel_list_text(&vec![]), "No tunnels.");
    assert_eq!(port_list_text(&vec![]), "No ports.");
}

#[test]
fn tunnel_list_is_a_table() {
    let items = vec![ListTunnelResult {
        name: "demo".to_string(),
        tunnel_id: "abcde234".to_string(),
        tunnel_expiration: 24,
        description: "d".to_string(),
        port_count: 2,
    }];
    let text = tunnel_list_text(&items);
    assert_eq!(
        text,
        drawn(
            Some(vec!["Tunnel ID", "Name", "Description", "Expires", "Ports"]),
            vec![vec!["abcde234".into(), "demo".into(), "d".into(), "24".into(), "2".into()]]
        )
    );
    assert!(text.contains("abcde234"));
}

#[test]
fn port_list_shows_all_ports_marker_and_flags() {
    let items = vec![PortResult {
        port: -1,
        protocol: "auto".to_string(),
        allow_anonymous: true,
        tunnel_id: "abcde234".to_string(),
    }];
    assert_eq!(
        port_list_text(&items),
        drawn(
            Some(vec!["Port", "Protocol", "Anonymous", "Tunnel ID"]),
            vec![vec!["-1".into(), "auto".into(), "true".into(), "abcde234".into()]]
        )
    );
}

#[test]
fn key_value_tables() {
    let created = CreateTunnelResult {
        tunnel_id: "abcde234".to_string(),
        name: "demo".to_string(),
        description: String::new(),
        expiration_hours: -5,
    };
    let rows = created_tunnel_kv(&created);
    assert_eq!(rows[3], ("Expiration hours", "-5".to_string()));
    assert_eq!(
        kv_table(&rows),
        drawn(None, rows.iter().map(|(k, v)| vec![k.to_string(), v.clone()]).collect())
    );
    let shown = ShowTunnelResult {
        name: "n".to_string(),
        tunnel_id: "t".to_string(),
        tunnel_expiration: 7,
        description: String::new(),
        status: None,
    };
    let rows = show_tunnel_kv(&shown);
    assert_eq!(rows.len(), 8);
    assert_eq!(rows[4], ("Clients", "0".to_string()));
    let shown = ShowTunnelResult {
        status: Some(TunnelStatus {
            client_connection_count: 3,
            host_connection_count: 1,
            total_upload_bytes: 1024,
            total_download_bytes: 9,
        }),
        ..shown
    };
    let rows = show_tunnel_kv(&shown);
    assert_eq!(rows[6], ("Upload bytes", "1024".to_string()));
    let token = TunnelTokenResult { tunnel_id: "t".into(), scope: "host".into(), token: "x".into() };
    assert_eq!(token_kv(&token)[1], ("Scope", "host".to_string()));
    let limits = LimitsResult {
        reset_at: 0,
        quota_bytes: 100,
        remaining_bytes: 40,
        active_tunnels: 1,
        max_tunnels: 5,
        max_ports_per_tunnel: 10,
        max_hosts_per_tunnel: 2,
        max_tunnel_bandwidth_bytes_per_second: 1_000_000,
        max_http_requests_per_minute_per_port: 600,
        max_connections_per_port: 50,
    };
    let rows = limits_kv(&limits);
    assert_eq!(rows[0], ("Remaining bytes", "40".to_string()));
    assert_eq!(rows[8], ("Max connections/port", "50".to_string()));
}
