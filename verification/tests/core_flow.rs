use devbridge::control::api::{ApiClient, RequestError};
use devbridge::control::auth::{
    browser_login_result, login_with_api_key, logout, preferred_language, record_browser_login,
    resolve_api_key, Credential, LoginEnvelope, LoginError, LoginResult, UserInfo,
};
use devbridge::control::config::{
    config_path, default_tunnel, set_default_tunnel, AppConfig, ConfigError,
};
use devbridge::control::login::{callback_reply, login_page, preflight_reply};
use devbridge::control::settings::Settings;
use devbridge::frontend::{
    check_token_ports, delete_clears_default, discovers_ports, host_port_requests, host_tunnel,
    host_tunnel_name, resolve_tunnel, tcp_ports, tunnel_auth, FrontError, HostTunnel,
};
use devbridge::tunnel::TunnelAuth;

fn config_with_default(id: Option<&str>) -> AppConfig {
    let mut c = AppConfig::default();
    set_default_tunnel(&mut c, id.map(|s| s.to_string()));
    c
}

#[test]
fn default_tunnel_reads_back_what_was_set() {
    let c = config_with_default(Some("abcde234"));
    assert_eq!(default_tunnel(Ok(c)).unwrap(), "abcde234");
    let c = config_with_default(Some("   "));
    assert!(matches!(default_tunnel(Ok(c)), Err(ConfigError::NoDefaultTunnel)));
    let c = config_with_default(None);
    assert!(matches!(default_tunnel(Ok(c)), Err(ConfigError::NoDefaultTunnel)));
    let e = ConfigError::Load { message: "failed to parse".to_string() };
    assert!(matches!(default_tunnel(Err(e)), Err(ConfigError::Load { .. })));
}

#[test]
fn config_errors_have_their_texts() {
    assert_eq!(
        ConfigError::NoDefaultTunnel.message_text(),
        "no default tunnel configured; run 'devbridge set <tunnel-id>' first"
    );
    assert_eq!(
        ConfigError::MissingApiKey.message_text(),
        "missing API key; run 'devbridge auth login' or set HW_API_KEY"
    );
}

#[test]
fn config_file_lives_under_home() {
    assert_eq!(config_path(Some("/home/u")).unwrap(), "/home/u/.huawei/devbridge/config.yaml");
    assert_eq!(config_path(Some("/home/u/")).unwrap(), "/home/u/.huawei/devbridge/config.yaml");
    assert_eq!(config_path(Some("")).unwrap(), ".huawei/devbridge/config.yaml");
    assert!(config_path(None).is_none());
}

#[test]
fn explicit_key_beats_environment_and_file() {
    let mut c = AppConfig::default();
    c.credentials = Some(Credential { api_key: "stored".to_string() });
    assert_eq!(resolve_api_key(Some("cli"), Some("env"), Ok(c.clone())).unwrap(), "cli");
    assert_eq!(resolve_api_key(Some(" "), Some("env"), Ok(c.clone())).unwrap(), "env");
    assert_eq!(resolve_api_key(None, Some(""), Ok(c.clone())).unwrap(), "stored");
    assert!(matches!(
        resolve_api_key(None, None, Ok(AppConfig::default())),
        Err(ConfigError::MissingApiKey)
    ));
}

#[test]
fn login_then_logout() {
    let mut c = config_with_default(Some("abcde234"));
    let user = login_with_api_key(&mut c, "k1".to_string());
    assert_eq!(user.user_name, "");
    assert_eq!(resolve_api_key(None, None, Ok(c.clone())).unwrap(), "k1");
    logout(&mut c);
    assert!(c.credentials.is_none());
    assert!(c.user_info.is_none());
    assert_eq!(c.default_tunnel_id.as_deref(), Some("abcde234"));
    assert!(resolve_api_key(None, None, Ok(c)).is_err());
}

#[test]
fn browser_login_is_judged_by_its_code() {
    let ok = LoginEnvelope {
        error_code: "0000".to_string(),
        error_msg: String::new(),
        result: Some(LoginResult {
            api_key: "k2".to_string(),
            user_name: "ann".to_string(),
            user_id: "7".to_string(),
        }),
    };
    let result = browser_login_result(ok).unwrap();
    let mut c = AppConfig::default();
    let user = record_browser_login(&mut c, result);
    assert_eq!(user.user_name, "ann");
    assert_eq!(c.credentials.unwrap().api_key, "k2");
    let rejected = LoginEnvelope {
        error_code: "1001".to_string(),
        error_msg: "denied".to_string(),
        result: None,
    };
    let e = browser_login_result(rejected).unwrap_err();
    assert_eq!(e.message_text(), "login failed: 1001 denied");
    let empty = LoginEnvelope { error_code: "0000".to_string(), error_msg: String::new(), result: None };
    let e = browser_login_result(empty).unwrap_err();
    assert!(matches!(e, LoginError::MissingCredentials));
    assert_eq!(e.message_text(), "login response did not contain credentials");
    assert_eq!(
        LoginError::VerificationFailed.message_text(),
        "login succeeded but API key verification failed"
    );
    let _ = UserInfo { user_name: String::new(), user_id: String::new() };
}

#[test]
fn login_language_follows_devbridge_lang() {
    assert_eq!(preferred_language(Some("ZH_cn")), "zh-CN");
    assert_eq!(preferred_language(Some("en")), "en-US");
    assert_eq!(preferred_language(Some("z")), "en-US");
    assert_eq!(preferred_language(None), "en-US");
}

#[test]
fn login_page_joins_redirect_and_query() {
    let page = login_page("https://login.example/some/path?x=1", "en-US", 4321).unwrap();
    assert_eq!(
        page.url,
        "https://login.example/space/devbridge/redirect?origin=devbridge&language=en-US&callback=4321"
    );
    assert_eq!(page.allow_origin, "https://login.example");
    let page = login_page("https://login.example:8443", "zh-CN", 1).unwrap();
    assert_eq!(page.allow_origin, "https://login.example:8443");
    assert!(login_page("not a url", "en-US", 1).is_err());
}

#[test]
fn callback_replies_carry_cors_headers() {
    let r = callback_reply("https://login.example");
    assert_eq!(r.status, 200);
    assert_eq!(r.body, "DevBridge login completed. You can close this page.");
    assert_eq!(r.headers[0].0, "access-control-allow-origin");
    assert_eq!(r.headers[0].1, "https://login.example");
    assert_eq!(r.headers[1].1, "POST, OPTIONS");
    assert_eq!(r.headers[2].1, "content-type");
    let p = preflight_reply("https://login.example");
    assert_eq!(p.status, 204);
    assert!(p.body.is_empty());
    assert_eq!(p.headers.len(), 3);
}

#[test]
fn blank_tunnel_argument_means_the_default() {
    let c = config_with_default(Some("abcde234"));
    assert_eq!(resolve_tunnel(Some("xyzab234".to_string()), Ok(c.clone())).unwrap(), "xyzab234");
    assert_eq!(resolve_tunnel(Some("  ".to_string()), Ok(c.clone())).unwrap(), "abcde234");
    assert_eq!(resolve_tunnel(None, Ok(c)).unwrap(), "abcde234");
    assert!(resolve_tunnel(None, Ok(AppConfig::default())).is_err());
}

#[test]
fn host_picks_its_tunnel() {
    let c = config_with_default(Some("abcde234"));
    let none: Vec<i32> = vec![];
    let ports = vec![8080, 9090];
    assert!(matches!(
        host_tunnel(None, true, &ports, Ok(c.clone()), 0),
        Err(FrontError::TunnelIdRequired)
    ));
    assert!(matches!(
        host_tunnel(Some("given234".to_string()), true, &none, Ok(c.clone()), 0),
        Ok(HostTunnel::Existing(ref id)) if id == "given234"
    ));
    assert!(matches!(
        host_tunnel(None, false, &none, Ok(c.clone()), 0),
        Ok(HostTunnel::Existing(ref id)) if id == "abcde234"
    ));
    assert!(matches!(
        host_tunnel(None, false, &none, Ok(AppConfig::default()), 0),
        Err(FrontError::Config(ConfigError::NoDefaultTunnel))
    ));
    assert!(matches!(
        host_tunnel(None, false, &ports, Ok(c), 1_700_000_012_345),
        Ok(HostTunnel::Create(ref name)) if name == "tunnel-8080-2345"
    ));
}

#[test]
fn host_tunnel_name_keeps_four_clock_digits() {
    assert_eq!(host_tunnel_name(-1, 10_007), "tunnel--1-7");
    assert_eq!(host_tunnel_name(22, 9_999), "tunnel-22-9999");
}

#[test]
fn created_tunnel_gets_one_port_request_per_port() {
    let client = ApiClient::from_settings(&Settings::default(), "k".to_string());
    let ports = vec![8080, 0, 22];
    let reqs = host_port_requests(&client, "abcde234", &ports);
    assert_eq!(reqs.len(), 3);
    assert_eq!(
        reqs[0].as_ref().unwrap().body.as_deref(),
        Some("{\"port\":8080,\"protocol\":\"auto\",\"allowAnonymous\":true}")
    );
    assert!(matches!(reqs[1], Err(RequestError::InvalidPort { port: 0 })));
    assert!(reqs[2].is_ok());
}

#[test]
fn ports_are_discovered_only_without_token_and_ports() {
    assert!(discovers_ports(false, 0));
    assert!(!discovers_ports(true, 0));
    assert!(!discovers_ports(false, 2));
}

#[test]
fn token_beats_api_key() {
    assert!(matches!(
        tunnel_auth(Some("t".to_string()), Some("k".to_string())),
        Some(TunnelAuth::Token(ref t)) if t == "t"
    ));
    assert!(matches!(
        tunnel_auth(None, Some("k".to_string())),
        Some(TunnelAuth::ApiKey(ref k)) if k == "k"
    ));
    assert!(tunnel_auth(None, None).is_none());
}

#[test]
fn all_ports_marker_is_no_tcp_port() {
    assert_eq!(tcp_ports(&vec![-1, 80, 443]).unwrap(), vec![80u16, 443]);
    assert_eq!(tcp_ports(&vec![0, 65535]).unwrap(), vec![0u16, 65535]);
    let e = tcp_ports(&vec![80, 65536]).unwrap_err();
    assert_eq!(e.message_text(), "invalid TCP port");
    assert!(tcp_ports(&vec![-2]).is_err());
    assert!(tcp_ports(&vec![]).unwrap().is_empty());
}

#[test]
fn token_mode_needs_ports() {
    let none: Vec<u16> = vec![];
    let e = check_token_ports(true, &none).unwrap_err();
    assert_eq!(
        e.message_text(),
        "--token mode requires --ports because REST port discovery is intentionally skipped"
    );
    assert!(check_token_ports(true, &vec![22]).is_ok());
    assert!(check_token_ports(false, &none).is_ok());
    assert_eq!(FrontError::TunnelIdRequired.message_text(), "tunnel ID is required with --token");
}

#[test]
fn deleting_the_default_clears_it() {
    let c = config_with_default(Some("abcde234"));
    assert!(delete_clears_default(&Ok(c.clone()), "abcde234"));
    assert!(!delete_clears_default(&Ok(c), "zzzzz234"));
    assert!(!delete_clears_default(&Ok(config_with_default(Some(" "))), " "));
    assert!(!delete_clears_default(&Err(ConfigError::NoDefaultTunnel), "abcde234"));
}
