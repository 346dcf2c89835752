use devbridge::cli::auth::content_length_of;
use devbridge::cli::i18n::{api, auth, days, limits, port, t, tunnel, version_info, Lang};
use devbridge::cli::netutil::{failure_status, PingResult};
use devbridge::cli::commands::{echo_response, ping_error_line, ping_line};
use std::time::Duration;

#[test]
fn messages_follow_the_language() {
    assert_eq!(t(Lang::Zh, "yes", "是"), "是");
    assert_eq!(t(Lang::En, "yes", "是"), "yes");
    assert_eq!(version_info(Lang::En), "DevBridge remote tunnel port forwarding tool");
    assert_eq!(days(Lang::Zh), "天");
    assert_eq!(auth::login_success(Lang::En), "Login successful");
    assert_eq!(auth::login_success(Lang::Zh), "登录成功");
    assert_eq!(tunnel::id(Lang::Zh), "隧道ID");
    assert_eq!(api::expired(Lang::Zh), "API Key 已过期，请重新登录");
    assert_eq!(port::port(Lang::En), "Port");
    assert_eq!(limits::quota(Lang::En), "Quota Bytes");
}

#[test]
fn content_length_is_found_in_any_case() {
    assert_eq!(content_length_of("POST / HTTP/1.1\r\ncontent-LENGTH:  42 \r\n\r\n"), Some(42));
    assert_eq!(content_length_of("POST / HTTP/1.1\r\nHost: x\r\n\r\n"), None);
    assert_eq!(content_length_of("POST / HTTP/1.1\r\nContent-Length: x\r\n\r\n"), None);
}

#[test]
fn ping_lines_and_results() {
    assert_eq!(ping_line("200 OK", 12), "HTTP 200 OK -- 12 ms");
    assert_eq!(ping_error_line(3, "refused"), "HTTP ERROR -- 3 ms (refused)");
    assert_eq!(failure_status(true), "Gateway Timeout");
    let r = PingResult::failed(false, Duration::from_millis(5), "x".to_string());
    assert_eq!(r.status_text, "Bad Gateway");
    assert_eq!(r.error.as_deref(), Some("x"));
    let r = PingResult::answered("204 No Content".to_string(), Duration::from_millis(1));
    assert!(r.error.is_none());
    assert!(echo_response().ends_with("Content-Length: 15\r\nConnection: close\r\n\r\nDevBridge echo\n"));
}
