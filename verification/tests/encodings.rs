use base64::Engine;
use devbridge::cli::api::ApiClient as CliClient;
use devbridge::cli::auth::{keyring_blob, read_api_key};
use devbridge::cli::config::AppConfig;
use devbridge::control::config::config_dir;

#[test]
fn keyring_text_is_padded_standard_base64() {
    assert_eq!(keyring_blob(""), "");
    assert_eq!(keyring_blob("f"), "Zg==");
    assert_eq!(keyring_blob("fo"), "Zm8=");
    assert_eq!(keyring_blob("foo"), "Zm9v");
    assert_eq!(keyring_blob("foob"), "Zm9vYg==");
    for key in ["k", "key-?>~", "密钥", "a+b/c=="] {
        assert_eq!(keyring_blob(key), base64::engine::general_purpose::STANDARD.encode(key.as_bytes()));
    }
}

#[test]
fn keyring_key_reads_back_when_nothing_overrides_it() {
    for key in ["k", "密钥", "ab/+=="] {
        let blob = keyring_blob(key);
        let got = read_api_key(Some(""), None, Some(""), Some(&blob), Ok(AppConfig::default())).unwrap();
        assert_eq!(got, key);
    }
}

#[test]
fn json_strings_are_escaped_like_serde_json() {
    let c = CliClient::new("k".to_string(), None, None);
    let name = "a\"b\\c\n\t\u{1}\u{8}\u{c}\r\u{1f}\u{7f}é/";
    let body = c.create_tunnel(name, "", None).unwrap().body.unwrap();
    let quoted = "\"a\\\"b\\\\c\\n\\t\\u0001\\b\\f\\r\\u001f\u{7f}é/\"";
    assert_eq!(serde_json::to_string(name).unwrap(), quoted);
    assert!(body.contains(&format!("\"name\":{quoted}")), "{body}");
}

#[test]
fn config_dir_lives_under_home() {
    assert_eq!(config_dir(Some("/home/u")).unwrap(), "/home/u/.huawei/devbridge");
    assert_eq!(config_dir(Some("/")).unwrap(), "/.huawei/devbridge");
    assert!(config_dir(None).is_none());
}
