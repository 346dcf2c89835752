use devbridge::cli::api::{validate_tunnel_id as cli_validate_tunnel_id, ApiClient, ApiFailure, RequestError};
use devbridge::cli::auth::{
    browser_login_url, http_response, judge_envelope, keyring_blob, no_browser_message,
    read_api_key, verify_status, AfterResponse, AuthError, CallbackAction, CallbackConnection,
    CallbackPhase, CallbackResponse, LoginEnvelope, LoginFailure,
};
use devbridge::cli::commands::{anonymous_access, clears_default, tunnel_id, CommandError};
use devbridge::cli::config::{
    config_path, set_default_tunnel, store_api_key, AppConfig, ConfigError,
};
use devbridge::cli::i18n::{current_lang, system_lang, Lang};
use devbridge::cli::transport::{relay_tunnel_id, TransportError};
use devbridge::cli::updater::{
    cache_is_fresh, cache_path, install_command, is_newer, latest_release, new_check_result,
    parse_version, should_notify, update_notice, version_from_tag,
};

#[test]
fn compares_legacy_versions() {
    assert!(is_newer("1.2.3", "1.2.4"));
    assert!(is_newer("1.2.3", "1.2.3.1"));
    assert!(!is_newer("2.0.0", "1.9.9"));
    assert!(is_newer("dev", "1.0.0"));
    assert!(!is_newer("1.0.0", "latest"));
}

#[test]
fn english_is_default() {
    assert_eq!(current_lang(None), Lang::En);
}

#[test]
fn chinese_when_asked_for() {
    assert_eq!(current_lang(Some("zh_CN.UTF-8")), Lang::Zh);
    assert_eq!(current_lang(Some("ZH")), Lang::Zh);
    assert_eq!(current_lang(Some("en")), Lang::En);
    assert_eq!(system_lang(None, None, Some("zh_CN.UTF-8")), Lang::Zh);
    assert_eq!(system_lang(Some("en_US"), None, Some("zh_CN")), Lang::En);
    assert_eq!(system_lang(Some("C"), Some("zh_TW"), None), Lang::Zh);
    assert_eq!(system_lang(None, None, None), Lang::En);
}

#[test]
fn versions_parse_with_prefix_and_suffix() {
    assert_eq!(parse_version("v1.2.3"), Some((1, 2, 3, 0)));
    assert_eq!(parse_version("1.2.3.4-beta"), Some((1, 2, 3, 4)));
    assert_eq!(parse_version("1.2"), None);
    assert_eq!(parse_version("1.2.3.4.5"), None);
    assert_eq!(parse_version("1..3"), None);
}

#[test]
fn tags_are_normalised() {
    assert_eq!(version_from_tag("v1.2.3").unwrap(), "1.2.3");
    assert_eq!(version_from_tag("v1.2.3.0").unwrap(), "1.2.3");
    assert_eq!(version_from_tag("1.2.3.7").unwrap(), "1.2.3.7");
    assert!(version_from_tag("nightly").is_none());
}

#[test]
fn latest_release_is_the_newest_tag() {
    let tags = vec![
        "v1.0.0".to_string(),
        "nightly".to_string(),
        "v1.2.0".to_string(),
        "v1.1.9".to_string(),
    ];
    let (tag, version) = latest_release(&tags).unwrap();
    assert_eq!(tag, "v1.2.0");
    assert_eq!(version, "1.2.0");
    assert!(latest_release(&vec!["x".to_string()]).is_none());
}

#[test]
fn cache_and_notice_timing() {
    let r = new_check_result("v1.2.0".to_string(), "1.2.0".to_string(), 1_000);
    assert!(cache_is_fresh(&r, 1_000 + 86_400));
    assert!(!cache_is_fresh(&r, 1_000 + 86_401));
    assert!(should_notify("1.0.0", &r, 5_000));
    assert!(!should_notify("1.2.0", &r, 5_000));
    let mut notified = r.clone();
    notified.last_notify_at = 5_000;
    assert!(!should_notify("1.0.0", &notified, 5_000 + 86_399));
    assert!(should_notify("1.0.0", &notified, 5_000 + 86_400));
    assert_eq!(cache_path(Some("/h")).unwrap(), "/h/.huawei/devbridge/version_cache.json");
    assert!(cache_path(None).is_none());
}

#[test]
fn update_notice_includes_install_commands() {
    let text = update_notice("1.2.0", "1.0.0", false);
    assert!(text.starts_with("\nA new version is available: 1.2.0 (current: 1.0.0)\nUpdate:\n  # GitCode\n  curl -fsSL "));
    assert!(text.ends_with("install.sh | bash\n"));
    assert!(install_command(true).contains("irm "));
}

#[test]
fn cli_client_and_validation() {
    let c = ApiClient::new("k".to_string(), Some("https://x.example/"), None);
    assert_eq!(c.base, "https://x.example/open-api-inner/v1/relay-controller");
    assert_eq!(c.cluster_id, "devbridge-s2");
    let r = c.token("abcde234", "connect").unwrap();
    assert_eq!(r.url, "https://x.example/open-api-inner/v1/relay-controller/tunnels/abcde234/token?scope=connect");
    assert!(matches!(c.token("abcde234", "x"), Err(RequestError::InvalidScope)));
    let e = cli_validate_tunnel_id("Bad").unwrap_err();
    assert_eq!(e.message_text(), "invalid tunnel id \"Bad\": expected 8 lowercase base32 characters");
    assert_eq!(RequestError::InvalidPort { port: 0 }.message_text(), "port must be 1..=65535, or -1 for all ports");
    let f = ApiFailure::Api { code: "1".to_string(), message: "m".to_string() };
    assert_eq!(f.message_text(), "API 1: m");
}

#[test]
fn default_tunnel_and_anonymous_flags() {
    let mut cfg = AppConfig::default();
    set_default_tunnel(&mut cfg, Some("abcde234".to_string()));
    assert_eq!(tunnel_id(None, Ok(cfg.clone())).unwrap(), "abcde234");
    assert_eq!(tunnel_id(Some("x".to_string()), Ok(cfg.clone())).unwrap(), "x");
    assert!(clears_default(&cfg, "abcde234"));
    assert!(!clears_default(&cfg, "other"));
    assert!(matches!(tunnel_id(None, Ok(AppConfig::default())), Err(ConfigError::NoDefaultTunnel)));
    assert_eq!(anonymous_access(true, false), Ok(true));
    assert_eq!(anonymous_access(false, true), Ok(false));
    let e = anonymous_access(true, true).unwrap_err();
    assert_eq!(e, CommandError::ConflictingAnonymousFlags);
    assert_eq!(e.message_text(), "--allow-anonymous and --deny-anonymous are mutually exclusive");
    assert_eq!(config_path(Some("/r")).unwrap(), "/r/.huawei/devbridge/config.yaml");
}

#[test]
fn key_sources_in_order() {
    let mut cfg = AppConfig::default();
    store_api_key(&mut cfg, "file-key".to_string());
    assert_eq!(read_api_key(Some("o"), Some("h"), None, None, Ok(cfg.clone())).unwrap(), "o");
    assert_eq!(read_api_key(None, Some("h"), Some("d"), None, Ok(cfg.clone())).unwrap(), "h");
    assert_eq!(read_api_key(None, None, Some("d"), None, Ok(cfg.clone())).unwrap(), "d");
    let blob = keyring_blob("ring-key");
    assert_eq!(blob, "cmluZy1rZXk=");
    assert_eq!(read_api_key(None, None, None, Some(&blob), Ok(cfg.clone())).unwrap(), "ring-key");
    assert_eq!(read_api_key(None, None, None, Some("%%%"), Ok(cfg.clone())).unwrap(), "file-key");
    let e = read_api_key(None, None, None, None, Ok(AppConfig::default())).unwrap_err();
    assert!(matches!(e, AuthError::Expired));
    assert_eq!(e.message_text(Lang::En), "API key expired, please login again");
    let e = read_api_key(None, None, None, None, Err(ConfigError::NotLoggedIn)).unwrap_err();
    assert_eq!(e.message_text(Lang::En), "not logged in: run 'devbridge auth login --api-key <KEY>'");
}

#[test]
fn key_check_statuses() {
    assert!(verify_status(204, "").is_ok());
    assert!(matches!(verify_status(401, ""), Err(AuthError::InvalidKey)));
    let e = verify_status(500, "oops").unwrap_err();
    assert_eq!(e.message_text(Lang::En), "verify api key: unexpected status 500, body=oops");
}

#[test]
fn cli_login_url_and_messages() {
    assert_eq!(
        browser_login_url("zh-cn", 5555).unwrap(),
        "https://devstation.ulanqab.huawei.com/space/devbridge/redirect?origin=devbridge&language=zh-cn&callback=5555"
    );
    assert!(no_browser_message("boom").ends_with("--api-key=YOUR_API_KEY (boom)"));
    let f = LoginFailure::Rejected { error_code: "9".to_string(), error_msg: "no".to_string() };
    assert!(f.message_text().starts_with("Failed to login: error code: 9, error message: no\n"));
    assert_eq!(LoginFailure::MissingApiKey.message_text(), "missing api key");
}

#[test]
fn relay_needs_a_tunnel() {
    let e = relay_tunnel_id(None, None).unwrap_err();
    assert_eq!(e.message_text(), "tunnel ID is required");
    assert_eq!(relay_tunnel_id(None, Some("d".to_string())).unwrap(), "d");
    let e = TransportError::NoPorts { tunnel_id: "t".to_string() };
    assert_eq!(e.message_text(), "no ports configured for tunnel t");
}

#[test]
fn callback_answers_preflight_then_reads_post() {
    let (mut conn, first) = CallbackConnection::start();
    assert!(matches!(first, CallbackAction::Read { max: 8192 }));
    let act = conn.on_read(b"OPTIONS / HTTP/1.1\r\nHost: x\r\n\r\n");
    assert!(matches!(act, CallbackAction::Respond { status: 200, then: AfterResponse::NextConnection, .. }));

    let (mut conn, _) = CallbackConnection::start();
    let act = conn.on_read(b"POST / HTTP/1.1\r\nContent-Length: 5\r\n\r\nab");
    assert!(matches!(act, CallbackAction::Read { .. }));
    assert!(matches!(conn.phase, CallbackPhase::Body { .. }));
    match conn.on_read(b"cde") {
        CallbackAction::ParseBody { bytes } => assert_eq!(bytes, b"abcde".to_vec()),
        other => panic!("unexpected {other:?}"),
    }

    let (mut conn, _) = CallbackConnection::start();
    let act = conn.on_read(b"GET / HTTP/1.1\r\n\r\n");
    assert!(matches!(act, CallbackAction::Respond { status: 405, .. }));

    let (mut conn, _) = CallbackConnection::start();
    let act = conn.on_read(b"POST / HTTP/1.1\r\ncontent-length: 5000\r\n\r\n");
    assert!(matches!(act, CallbackAction::Respond { status: 400, .. }));

    let (mut conn, _) = CallbackConnection::start();
    let act = conn.on_read(b"");
    assert!(matches!(act, CallbackAction::Fail(LoginFailure::BadRequest)));
}

#[test]
fn callback_envelope_is_judged() {
    assert!(matches!(judge_envelope(None), CallbackAction::Respond { status: 400, .. }));
    let env = LoginEnvelope {
        error_code: "0000".to_string(),
        error_msg: String::new(),
        result: CallbackResponse { api_key: "k".to_string(), user_name: String::new(), user_id: String::new() },
    };
    match judge_envelope(Some(env)) {
        CallbackAction::Respond { status: 200, then: AfterResponse::LoggedIn { api_key, user_info }, .. } => {
            assert_eq!(api_key, "k");
            assert!(user_info.is_none());
        }
        other => panic!("unexpected {other:?}"),
    }
    let env = LoginEnvelope {
        error_code: "0000".to_string(),
        error_msg: String::new(),
        result: CallbackResponse { api_key: String::new(), user_name: "u".to_string(), user_id: String::new() },
    };
    assert!(matches!(
        judge_envelope(Some(env)),
        CallbackAction::Respond { status: 400, then: AfterResponse::Fail(LoginFailure::MissingApiKey), .. }
    ));
    let text = http_response(405, "method not allowed");
    assert!(text.starts_with("HTTP/1.1 405 Method Not Allowed\r\n"));
    assert!(text.ends_with("Content-Length: 18\r\nConnection: close\r\n\r\nmethod not allowed"));
}
