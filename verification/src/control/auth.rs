//! Credentials: which API key is used, what a login records in the
//! configuration, how a browser login's callback is judged, and logout.
use vstd::prelude::*;
use crate::control::config::{AppConfig, ConfigError};
use crate::control::settings::{api_base_url_spec, Settings};
use crate::text::{ascii_lower, is_blank, is_blank_spec, owned, push_str, starts_with_ci};

verus! {

/// The error code of a successful browser login.
pub const LOGIN_SUCCESS_CODE: &'static str = "0000";

/// A stored API key.
#[derive(Debug, Clone)]
pub struct Credential {
    pub api_key: String,
}

/// The logged-in user.
#[derive(Debug, Clone)]
pub struct UserInfo {
    pub user_name: String,
    pub user_id: String,
}

/// The credentials in a browser login's callback.
#[derive(Debug, Clone)]
pub struct LoginResult {
    pub api_key: String,
    pub user_name: String,
    pub user_id: String,
}

/// The body that the login page posts to the callback.
#[derive(Debug, Clone)]
pub struct LoginEnvelope {
    pub error_code: String,
    pub error_msg: String,
    pub result: Option<LoginResult>,
}

/// Why a login failed.
#[derive(Debug, Clone)]
pub enum LoginError {
    /// The login page reported an error code other than `0000`.
    Rejected { error_code: String, error_msg: String },
    /// The callback carried no credentials.
    MissingCredentials,
    /// The API refused the key.
    VerificationFailed,
}

impl LoginError {
    /// The text of the error.
    pub fn message_text(&self) -> (r: String)
        ensures
            r@ == match self {
                LoginError::Rejected { error_code, error_msg } => "login failed: "@ + error_code@ + " "@
                    + error_msg@,
                LoginError::MissingCredentials => "login response did not contain credentials"@,
                LoginError::VerificationFailed => "login succeeded but API key verification failed"@,
            },
    {
        match self {
            LoginError::Rejected { error_code, error_msg } => {
                let mut s = owned("login failed: ");
                push_str(&mut s, error_code.as_str());
                push_str(&mut s, " ");
                push_str(&mut s, error_msg.as_str());
                s
            },
            LoginError::MissingCredentials => owned("login response did not contain credentials"),
            LoginError::VerificationFailed => owned("login succeeded but API key verification failed"),
        }
    }
}

/// The key a resolution picks: an explicit non-blank key, else a non-blank
/// `HW_API_KEY`, else the stored non-blank key.
pub open spec fn resolved_api_key(
    explicit: Option<Seq<char>>,
    env_key: Option<Seq<char>>,
    loaded: Result<AppConfig, ConfigError>,
) -> Option<Seq<char>> {
    if explicit is Some && !is_blank_spec(explicit.unwrap()) {
        explicit
    } else if env_key is Some && !is_blank_spec(env_key.unwrap()) {
        env_key
    } else {
        match loaded {
            Ok(c) => match c.credentials {
                Some(cred) if !is_blank_spec(cred.api_key@) => Some(cred.api_key@),
                _ => None,
            },
            Err(_) => None,
        }
    }
}

/// The spec view of an optional string slice.
pub open spec fn opt_view(s: Option<&str>) -> Option<Seq<char>> {
    match s {
        Some(v) => Some(v@),
        None => None,
    }
}

/// The API key to use: an explicit non-blank key, else a non-blank
/// `HW_API_KEY` (`env_key`), else the non-blank key stored in `loaded`;
/// a load failure is passed on when the configuration is needed.
pub fn resolve_api_key(
    explicit: Option<&str>,
    env_key: Option<&str>,
    loaded: Result<AppConfig, ConfigError>,
) -> (r: Result<String, ConfigError>)
    ensures
        match resolved_api_key(opt_view(explicit), opt_view(env_key), loaded) {
            Some(k) => r is Ok && r.unwrap()@ == k,
            None => match loaded {
                Err(e) => (explicit is None || is_blank_spec(explicit.unwrap()@)) && (env_key is None
                    || is_blank_spec(env_key.unwrap()@)) ==> r == Err::<String, ConfigError>(e),
                Ok(_) => r == Err::<String, ConfigError>(ConfigError::MissingApiKey),
            },
        },
{
    if let Some(value) = explicit {
        if !is_blank(value) {
            return Ok(String::from_str(value));
        }
    }
    if let Some(value) = env_key {
        if !is_blank(value) {
            return Ok(String::from_str(value));
        }
    }
    match loaded {
        Err(e) => Err(e),
        Ok(c) => match c.credentials {
            Some(cred) => {
                if is_blank(cred.api_key.as_str()) {
                    Err(ConfigError::MissingApiKey)
                } else {
                    Ok(cred.api_key)
                }
            },
            None => Err(ConfigError::MissingApiKey),
        },
    }
}

/// The URL that checks an API key: `/auth/check` below the API root.
pub fn auth_check_url(settings: &Settings) -> (r: String)
    ensures
        r@ == api_base_url_spec(settings.server_domain@) + "/auth/check"@,
{
    let mut s = settings.api_base_url();
    push_str(&mut s, "/auth/check");
    s
}

/// A key check accepts the key exactly when it answers `204 No Content`.
pub fn key_accepted(status: u16) -> (r: bool)
    ensures
        r == (status == 204),
{
    status == 204
}

/// `config` after logging in with `api_key`: the key is stored, the rest is
/// kept.
pub open spec fn with_api_key(config: AppConfig, api_key: String) -> AppConfig {
    AppConfig { credentials: Some(Credential { api_key }), ..config }
}

/// Stores a verified API key and returns the recorded user, or an empty one.
pub fn login_with_api_key(config: &mut AppConfig, api_key: String) -> (user: UserInfo)
    ensures
        *final(config) == with_api_key(*old(config), api_key),
        match old(config).user_info {
            Some(u) => user == u,
            None => user.user_name@.len() == 0 && user.user_id@.len() == 0,
        },
{
    config.credentials = Some(Credential { api_key });
    match &config.user_info {
        Some(u) => UserInfo { user_name: u.user_name.clone(), user_id: u.user_id.clone() },
        None => UserInfo { user_name: String::new(), user_id: String::new() },
    }
}

/// The credentials of a browser login's callback, or why it failed.
pub open spec fn login_outcome(envelope: LoginEnvelope) -> Result<LoginResult, LoginError> {
    if envelope.error_code@ != LOGIN_SUCCESS_CODE@ {
        Err(
            LoginError::Rejected {
                error_code: envelope.error_code,
                error_msg: envelope.error_msg,
            },
        )
    } else {
        match envelope.result {
            Some(res) => Ok(res),
            None => Err(LoginError::MissingCredentials),
        }
    }
}

/// Law: a browser login succeeds exactly when the code is `0000` and the
/// credentials are present, and then gives those credentials; any other
/// code is a rejection that carries the code and message received.
pub proof fn lemma_login_outcome(envelope: LoginEnvelope)
    ensures
        login_outcome(envelope) is Ok <==> (envelope.error_code@ == "0000"@ && envelope.result is Some),
        login_outcome(envelope) is Ok ==> login_outcome(envelope).unwrap() == envelope.result.unwrap(),
        envelope.error_code@ != "0000"@ ==> login_outcome(envelope) == Err::<LoginResult, LoginError>(
            LoginError::Rejected { error_code: envelope.error_code, error_msg: envelope.error_msg },
        ),
        (envelope.error_code@ == "0000"@ && envelope.result is None) ==> login_outcome(envelope)
            == Err::<LoginResult, LoginError>(LoginError::MissingCredentials),
{
}

/// Judges a browser login's callback: the code must be `0000` and the
/// credentials present.
pub fn browser_login_result(envelope: LoginEnvelope) -> (r: Result<LoginResult, LoginError>)
    ensures
        r == login_outcome(envelope),
{
    let ok = crate::text::str_eq(envelope.error_code.as_str(), LOGIN_SUCCESS_CODE);
    if !ok {
        return Err(
            LoginError::Rejected { error_code: envelope.error_code, error_msg: envelope.error_msg },
        );
    }
    match envelope.result {
        Some(res) => Ok(res),
        None => Err(LoginError::MissingCredentials),
    }
}

/// `config` after a browser login: key and user are stored.
pub open spec fn with_browser_login(config: AppConfig, result: LoginResult) -> AppConfig {
    AppConfig {
        credentials: Some(Credential { api_key: result.api_key }),
        user_info: Some(UserInfo { user_name: result.user_name, user_id: result.user_id }),
        ..config
    }
}

/// Stores the verified credentials of a browser login; returns the user.
pub fn record_browser_login(config: &mut AppConfig, result: LoginResult) -> (user: UserInfo)
    ensures
        *final(config) == with_browser_login(*old(config), result),
        user.user_name == result.user_name,
        user.user_id == result.user_id,
{
    let user = UserInfo { user_name: result.user_name, user_id: result.user_id };
    config.credentials = Some(Credential { api_key: result.api_key });
    config.user_info = Some(
        UserInfo { user_name: user.user_name.clone(), user_id: user.user_id.clone() },
    );
    user
}

/// `config` after logout: no key and no user; the default tunnel stays.
pub open spec fn logged_out(config: AppConfig) -> AppConfig {
    AppConfig { credentials: None, user_info: None, ..config }
}

/// Forgets the stored key and user.
pub fn logout(config: &mut AppConfig)
    ensures
        *final(config) == logged_out(*old(config)),
{
    config.credentials = None;
    config.user_info = None;
}

/// Whether `DEVBRIDGE_LANG` asks for Chinese: it starts with `zh`, in any
/// ASCII case.
pub open spec fn wants_chinese(value: Option<Seq<char>>) -> bool {
    match value {
        None => false,
        Some(v) => v.len() >= 2 && ascii_lower(v[0]) == 'z' && ascii_lower(v[1]) == 'h',
    }
}

/// The login page language for a `DEVBRIDGE_LANG` value.
pub fn preferred_language(devbridge_lang: Option<&str>) -> (r: &'static str)
    ensures
        r@ == (if wants_chinese(opt_view(devbridge_lang)) {
            "zh-CN"@
        } else {
            "en-US"@
        }),
{
    let zh = match devbridge_lang {
        Some(v) => starts_with_ci(v, 'z', 'h'),
        None => false,
    };
    if zh {
        "zh-CN"
    } else {
        "en-US"
    }
}

/// Law: after a login with a non-blank key, that key is the one resolved
/// when no explicit key or `HW_API_KEY` is given; after logout none is,
/// and the default tunnel survives logout.
pub proof fn lemma_login_logout(config: AppConfig, api_key: String, result: LoginResult)
    ensures
        !is_blank_spec(api_key@) ==> resolved_api_key(
            None,
            None,
            Ok(with_api_key(config, api_key)),
        ) == Some(api_key@),
        !is_blank_spec(result.api_key@) ==> resolved_api_key(
            None,
            None,
            Ok(with_browser_login(config, result)),
        ) == Some(result.api_key@),
        resolved_api_key(None, None, Ok(logged_out(config))) is None,
        logged_out(config).default_tunnel_id == config.default_tunnel_id,
{
}

/// Law: without an explicit key, a non-blank `HW_API_KEY` wins over the
/// stored key; the stored key is used only when neither gives one; a blank
/// key is never resolved.
pub proof fn lemma_key_sources_in_order(
    explicit: Option<Seq<char>>,
    env_key: Option<Seq<char>>,
    loaded: Result<AppConfig, ConfigError>,
)
    ensures
        ((explicit is None || is_blank_spec(explicit.unwrap())) && env_key is Some
            && !is_blank_spec(env_key.unwrap())) ==> resolved_api_key(explicit, env_key, loaded)
            == env_key,
        ((explicit is None || is_blank_spec(explicit.unwrap())) && (env_key is None
            || is_blank_spec(env_key.unwrap())) && loaded is Ok && loaded.unwrap().credentials is Some
            && !is_blank_spec(loaded.unwrap().credentials.unwrap().api_key@)) ==> resolved_api_key(
            explicit,
            env_key,
            loaded,
        ) == Some(loaded.unwrap().credentials.unwrap().api_key@),
        ((explicit is None || is_blank_spec(explicit.unwrap())) && (env_key is None
            || is_blank_spec(env_key.unwrap())) && (loaded is Err || loaded.unwrap().credentials is None
            || is_blank_spec(loaded.unwrap().credentials.unwrap().api_key@))) ==> resolved_api_key(
            explicit,
            env_key,
            loaded,
        ) is None,
        resolved_api_key(explicit, env_key, loaded) is Some ==> !is_blank_spec(
            resolved_api_key(explicit, env_key, loaded).unwrap(),
        ),
{
}

/// Law: an explicit non-blank key always wins.
pub proof fn lemma_explicit_key_wins(
    explicit: Seq<char>,
    env_key: Option<Seq<char>>,
    loaded: Result<AppConfig, ConfigError>,
)
    requires
        !is_blank_spec(explicit),
    ensures
        resolved_api_key(Some(explicit), env_key, loaded) == Some(explicit),
{
}

} // verus!
