use devbridge::control::api::{
    parse_api_error, validate_port, validate_tunnel_id, ApiClient, ApiError, ApiFailure,
    RequestError, ALL_PORTS,
};
use devbridge::control::settings::{env_flag, runtime_or_build, Settings, SettingsEnvironment};
use devbridge::http::HttpMethod;

#[test]
fn validates_tunnel_ids() {
    assert!(validate_tunnel_id("abcde234").is_ok());
    assert!(validate_tunnel_id("ABCde234").is_err());
    assert!(validate_tunnel_id("short").is_err());
}

#[test]
fn all_ports_is_not_a_tcp_port() {
    assert!(validate_port(ALL_PORTS).is_ok());
    assert!(validate_port(0).is_err());
    assert!(validate_port(65536).is_err());
}

#[test]
fn builds_api_base_url_without_double_slash() {
    let mut settings = Settings::default();
    settings.server_domain = "https://example.invalid/".into();
    assert_eq!(
        settings.api_base_url(),
        "https://example.invalid/open-api-inner/v1/relay-controller"
    );
}

#[test]
fn api_base_url_strips_every_trailing_slash() {
    let mut settings = Settings::default();
    settings.server_domain = "https://example.invalid///".into();
    let once = settings.api_base_url();
    settings.server_domain = "https://example.invalid".into();
    assert_eq!(once, settings.api_base_url());
}

#[test]
fn default_settings_are_the_built_in_ones() {
    let s = Settings::default();
    assert_eq!(s.server_domain, "https://bridge.developer.myhuaweicloud.com");
    assert_eq!(s.gateway_addr, "gateway.devbridge-s2.hwtunnel.com:443");
    assert_eq!(s.gateway_host, "devbridge-s2.hwtunnel.com");
    assert_eq!(s.cluster_id, "devbridge-s2");
    assert!(!s.insecure_tls);
}

#[test]
fn runtime_value_wins_unless_blank() {
    assert_eq!(runtime_or_build(Some("rt".to_string()), Some("bt"), "fb"), "rt");
    assert_eq!(runtime_or_build(Some("  ".to_string()), Some("bt"), "fb"), "bt");
    assert_eq!(runtime_or_build(None, None, "fb"), "fb");
    assert_eq!(runtime_or_build(Some(String::new()), None, "fb"), "fb");
}

#[test]
fn environment_selects_settings() {
    let mut env = SettingsEnvironment::empty();
    env.cluster_id.runtime = Some("c1".to_string());
    env.gateway_host.build = Some("gw.example".to_string());
    env.insecure_tls = Some("YES".to_string());
    let s = Settings::from_environment(env);
    assert_eq!(s.cluster_id, "c1");
    assert_eq!(s.gateway_host, "gw.example");
    assert!(s.insecure_tls);
}

#[test]
fn flags_accept_four_spellings() {
    assert!(env_flag(Some("1")));
    assert!(env_flag(Some("True")));
    assert!(env_flag(Some("on")));
    assert!(env_flag(Some("yes")));
    assert!(!env_flag(Some("no")));
    assert!(!env_flag(Some("")));
    assert!(!env_flag(None));
}

fn client() -> ApiClient {
    let mut settings = Settings::default();
    settings.server_domain = "https://api.example/".into();
    ApiClient::from_settings(&settings, "key".to_string())
}

#[test]
fn client_targets_the_api_root() {
    let c = client();
    assert_eq!(c.base_url, "https://api.example/open-api-inner/v1/relay-controller");
    assert_eq!(c.api_key, "key");
    let r = c.list_tunnels();
    assert_eq!(r.method, HttpMethod::Get);
    assert_eq!(r.url, "https://api.example/open-api-inner/v1/relay-controller/tunnels");
    assert!(r.body.is_none());
}

#[test]
fn create_tunnel_body_skips_empty_description() {
    let c = client();
    let r = c.create_tunnel("demo", "", Some(24)).unwrap();
    assert_eq!(r.method, HttpMethod::Post);
    assert_eq!(
        r.body.unwrap(),
        "{\"name\":\"demo\",\"ClusterId\":\"devbridge-s2\",\"expiration\":24}"
    );
    let r = c.create_tunnel("demo", "abc", None).unwrap();
    assert_eq!(
        r.body.unwrap(),
        "{\"name\":\"demo\",\"description\":\"abc\",\"ClusterId\":\"devbridge-s2\"}"
    );
}

#[test]
fn create_tunnel_rejects_bad_input() {
    let c = client();
    assert!(matches!(c.create_tunnel("", "", None), Err(RequestError::NameLength)));
    assert!(matches!(c.create_tunnel("-demo", "", None), Err(RequestError::NameEdge)));
    assert!(matches!(c.create_tunnel("de_mo", "", None), Err(RequestError::NameCharacters)));
    assert!(matches!(c.create_tunnel("demo", "a b", None), Err(RequestError::InvalidDescription)));
    assert!(matches!(c.create_tunnel("demo", "", Some(0)), Err(RequestError::InvalidExpiration)));
    assert!(matches!(c.create_tunnel("demo", "", Some(721)), Err(RequestError::InvalidExpiration)));
    assert!(c.create_tunnel("演示-1", "说明", Some(720)).is_ok());
}

#[test]
fn update_tunnel_sends_only_given_fields() {
    let c = client();
    let r = c.update_tunnel("abcde234", None, Some("d"), None).unwrap();
    assert_eq!(r.method, HttpMethod::Put);
    assert_eq!(
        r.url,
        "https://api.example/open-api-inner/v1/relay-controller/tunnels/abcde234"
    );
    assert_eq!(r.body.unwrap(), "{\"description\":\"d\"}");
}

#[test]
fn port_requests_use_signed_port_paths() {
    let c = client();
    let r = c.show_port("abcde234", ALL_PORTS).unwrap();
    assert_eq!(
        r.url,
        "https://api.example/open-api-inner/v1/relay-controller/tunnels/abcde234/ports/-1"
    );
    let r = c.create_port("abcde234", 8080, "auto", true).unwrap();
    assert_eq!(
        r.body.unwrap(),
        "{\"port\":8080,\"protocol\":\"auto\",\"allowAnonymous\":true}"
    );
    assert!(matches!(
        c.create_port("abcde234", 8080, "ftp", true),
        Err(RequestError::InvalidProtocol { .. })
    ));
    assert!(matches!(
        c.delete_port("abcde234", 70000),
        Err(RequestError::InvalidPort { port: 70000 })
    ));
    let r = c.update_port("abcde234", 22, false).unwrap();
    assert_eq!(r.method, HttpMethod::Put);
    assert_eq!(r.body.unwrap(), "{\"allowAnonymous\":false}");
}

#[test]
fn token_scope_is_checked() {
    let c = client();
    let r = c.tunnel_token("abcde234", "host").unwrap();
    assert_eq!(r.method, HttpMethod::Post);
    assert_eq!(
        r.url,
        "https://api.example/open-api-inner/v1/relay-controller/tunnels/abcde234/token?scope=host"
    );
    assert!(matches!(
        c.tunnel_token("abcde234", "admin"),
        Err(RequestError::InvalidScope { .. })
    ));
    assert!(matches!(
        c.tunnel_token("BAD", "host"),
        Err(RequestError::InvalidTunnelId { .. })
    ));
}

#[test]
fn api_failures_prefer_the_envelope() {
    let e = ApiError { code: "10002".to_string(), message: "not found".to_string() };
    let f = parse_api_error(404, "{}", Some(e));
    assert_eq!(f.message_text(), "error code: 10002, error message: not found");
    let f = parse_api_error(502, "bad gateway", None);
    assert!(matches!(f, ApiFailure::Http { status: 502, .. }));
    assert_eq!(f.message_text(), "DevBridge API request failed: HTTP 502: bad gateway");
}

#[test]
fn strings_are_json_escaped() {
    let c = client();
    let r = c.update_tunnel("abcde234", Some("a\"b"), None, None);
    // a quote is no allowed name character
    assert!(matches!(r, Err(RequestError::NameCharacters)));
    let r = c.create_port("abcde234", 1, "", false).unwrap();
    assert_eq!(r.body.unwrap(), "{\"port\":1,\"protocol\":\"\",\"allowAnonymous\":false}");
}
