//! The local configuration (`~/.huawei/devbridge/config.yaml`) as the
//! command-line front end reads and changes it.
use vstd::prelude::*;

verus! {

pub const DEFAULT_SERVER_DOMAIN: &'static str = "https://relay-dev-local.tailb4159e.ts.net:8443";

pub const DEFAULT_CLUSTER_ID: &'static str = "devbridge-s2";

/// A stored API key.
#[derive(Debug, Clone)]
pub struct Credential {
    pub api_key: String,
}

/// The logged-in user.
#[derive(Debug, Clone)]
pub struct UserInfo {
    pub user_name: String,
    pub user_id: String,
}

/// The configuration file's contents.
#[derive(Debug, Clone)]
pub struct AppConfig {
    pub default_tunnel_id: Option<String>,
    pub credentials: Option<Credential>,
    pub user_info: Option<UserInfo>,
}

/// Why configuration could not give what was asked of it.
#[derive(Debug, Clone)]
pub enum ConfigError {
    /// The file could not be read or parsed; the text says why.
    Load { message: String },
    /// No default tunnel is configured.
    NoDefaultTunnel,
    /// No API key is available: the user is not logged in.
    NotLoggedIn,
}

/// The configuration of a missing or blank file: nothing set.
impl Default for AppConfig {
    fn default() -> (r: AppConfig)
        ensures
            r.default_tunnel_id is None,
            r.credentials is None,
            r.user_info is None,
    {
        AppConfig { default_tunnel_id: None, credentials: None, user_info: None }
    }
}

/// The spec view of an optional string slice.
pub open spec fn opt_view(s: Option<&str>) -> Option<Seq<char>> {
    match s {
        Some(v) => Some(v@),
        None => None,
    }
}

/// The key a resolution picks: a non-empty override, else a non-empty
/// `DEVBRIDGE_API_KEY`, else the stored non-empty key.
pub open spec fn resolved_key(
    override_key: Option<Seq<char>>,
    env_key: Option<Seq<char>>,
    loaded: Result<AppConfig, ConfigError>,
) -> Option<Seq<char>> {
    if override_key is Some && override_key.unwrap().len() > 0 {
        override_key
    } else if env_key is Some && env_key.unwrap().len() > 0 {
        env_key
    } else {
        match loaded {
            Ok(c) => match c.credentials {
                Some(cred) if cred.api_key@.len() > 0 => Some(cred.api_key@),
                _ => None,
            },
            Err(_) => None,
        }
    }
}

/// Law: a non-empty override key is always the key resolved, whatever the
/// environment and the stored configuration hold.
pub proof fn lemma_override_key_wins(
    override_key: Seq<char>,
    env_key: Option<Seq<char>>,
    loaded: Result<AppConfig, ConfigError>,
)
    requires
        override_key.len() > 0,
    ensures
        resolved_key(Some(override_key), env_key, loaded) == Some(override_key),
{
}

/// Law: the key resolution follows its priority: without a non-empty
/// override a non-empty `DEVBRIDGE_API_KEY` wins over the stored key; the
/// stored key is used only when neither gives one, and an empty key is never
/// resolved.
pub proof fn lemma_key_priority(
    override_key: Option<Seq<char>>,
    env_key: Option<Seq<char>>,
    loaded: Result<AppConfig, ConfigError>,
)
    ensures
        ((override_key is None || override_key.unwrap().len() == 0) && env_key is Some
            && env_key.unwrap().len() > 0) ==> resolved_key(override_key, env_key, loaded)
            == env_key,
        ((override_key is None || override_key.unwrap().len() == 0) && (env_key is None
            || env_key.unwrap().len() == 0) && loaded is Ok && loaded.unwrap().credentials is Some
            && loaded.unwrap().credentials.unwrap().api_key@.len() > 0) ==> resolved_key(
            override_key,
            env_key,
            loaded,
        ) == Some(loaded.unwrap().credentials.unwrap().api_key@),
        ((override_key is None || override_key.unwrap().len() == 0) && (env_key is None
            || env_key.unwrap().len() == 0) && (loaded is Err || loaded.unwrap().credentials is None
            || loaded.unwrap().credentials.unwrap().api_key@.len() == 0)) ==> resolved_key(
            override_key,
            env_key,
            loaded,
        ) is None,
        resolved_key(override_key, env_key, loaded) is Some ==> resolved_key(
            override_key,
            env_key,
            loaded,
        ).unwrap().len() > 0,
{
}

/// The API key to use: a non-empty override, else a non-empty
/// `DEVBRIDGE_API_KEY` (`env_key`), else the stored non-empty key; a load
/// failure is passed on when the configuration is needed.
pub fn api_key(
    override_key: Option<&str>,
    env_key: Option<&str>,
    loaded: Result<AppConfig, ConfigError>,
) -> (r: Result<String, ConfigError>)
    ensures
        match resolved_key(opt_view(override_key), opt_view(env_key), loaded) {
            Some(k) => r is Ok && r.unwrap()@ == k,
            None => match loaded {
                Err(e) => r == Err::<String, ConfigError>(e),
                Ok(_) => r == Err::<String, ConfigError>(ConfigError::NotLoggedIn),
            },
        },
{
    if let Some(key) = override_key {
        if key.unicode_len() != 0 {
            return Ok(String::from_str(key));
        }
    }
    if let Some(key) = env_key {
        if key.unicode_len() != 0 {
            return Ok(String::from_str(key));
        }
    }
    match loaded {
        Err(e) => Err(e),
        Ok(c) => match c.credentials {
            Some(cred) => {
                if cred.api_key.as_str().unicode_len() != 0 {
                    Ok(cred.api_key)
                } else {
                    Err(ConfigError::NotLoggedIn)
                }
            },
            None => Err(ConfigError::NotLoggedIn),
        },
    }
}

/// The configured default tunnel.
pub fn default_tunnel(loaded: Result<AppConfig, ConfigError>) -> (r: Result<String, ConfigError>)
    ensures
        match loaded {
            Err(e) => r == Err::<String, ConfigError>(e),
            Ok(c) => match c.default_tunnel_id {
                Some(id) => r == Ok::<String, ConfigError>(id),
                None => r == Err::<String, ConfigError>(ConfigError::NoDefaultTunnel),
            },
        },
{
    match loaded {
        Err(e) => Err(e),
        Ok(c) => match c.default_tunnel_id {
            Some(id) => Ok(id),
            None => Err(ConfigError::NoDefaultTunnel),
        },
    }
}

/// `config` with its default tunnel replaced.
pub open spec fn with_default_tunnel(config: AppConfig, id: Option<String>) -> AppConfig {
    AppConfig { default_tunnel_id: id, ..config }
}

/// Records the default tunnel, or clears it with `None`.
pub fn set_default_tunnel(config: &mut AppConfig, id: Option<String>)
    ensures
        *final(config) == with_default_tunnel(*old(config), id),
{
    config.default_tunnel_id = id;
}

/// `config` with `key` stored.
pub open spec fn with_stored_key(config: AppConfig, key: String) -> AppConfig {
    AppConfig { credentials: Some(Credential { api_key: key }), ..config }
}

/// Stores an API key.
pub fn store_api_key(config: &mut AppConfig, key: String)
    ensures
        *final(config) == with_stored_key(*old(config), key),
{
    config.credentials = Some(Credential { api_key: key });
}

/// `config` after logout: no key, no user, no default tunnel.
pub open spec fn cleared(config: AppConfig) -> AppConfig {
    AppConfig { credentials: None, user_info: None, default_tunnel_id: None }
}

/// Forgets the key, the user and the default tunnel.
pub fn clear_auth(config: &mut AppConfig)
    ensures
        *final(config) == cleared(*old(config)),
{
    config.credentials = None;
    config.user_info = None;
    config.default_tunnel_id = None;
}

/// The stored key and user.
pub fn config_credential(config: &AppConfig) -> (r: (Option<Credential>, Option<UserInfo>))
    ensures
        r.0 == config.credentials,
        r.1 == config.user_info,
{
    let cred = match &config.credentials {
        Some(c) => Some(Credential { api_key: c.api_key.clone() }),
        None => None,
    };
    let user = match &config.user_info {
        Some(u) => Some(UserInfo { user_name: u.user_name.clone(), user_id: u.user_id.clone() }),
        None => None,
    };
    (cred, user)
}

/// `config` with a stored key (or none, when the key lives in the system
/// keyring) and the user.
pub open spec fn with_credential(
    config: AppConfig,
    credential: Option<Credential>,
    user_info: Option<UserInfo>,
) -> AppConfig {
    AppConfig { credentials: credential, user_info: user_info, ..config }
}

/// Records the key fallback and the user of a login.
pub fn store_config_credential(
    config: &mut AppConfig,
    credential: Option<Credential>,
    user_info: Option<UserInfo>,
)
    ensures
        *final(config) == with_credential(*old(config), credential, user_info),
{
    config.credentials = credential;
    config.user_info = user_info;
}

/// `config` without key and user; the default tunnel stays.
pub open spec fn without_credentials(config: AppConfig) -> AppConfig {
    AppConfig { credentials: None, user_info: None, ..config }
}

/// Forgets the stored key and user.
pub fn clear_credentials(config: &mut AppConfig)
    ensures
        *final(config) == without_credentials(*old(config)),
{
    config.credentials = None;
    config.user_info = None;
}

/// Law: what is stored reads back — a stored non-empty key is the key used
/// when neither override nor environment gives one, a set default tunnel is
/// the default tunnel — and after logout neither a key nor a default tunnel
/// remains.
pub proof fn lemma_config_read_after_write(config: AppConfig, key: String, id: String)
    ensures
        key@.len() > 0 ==> resolved_key(None, None, Ok(with_stored_key(config, key))) == Some(
            key@,
        ),
        with_default_tunnel(config, Some(id)).default_tunnel_id == Some(id),
        with_stored_key(config, key).default_tunnel_id == config.default_tunnel_id,
        with_default_tunnel(config, Some(id)).credentials == config.credentials,
        resolved_key(None, None, Ok(cleared(config))) is None,
        cleared(config).default_tunnel_id is None,
{
}

/// The configuration file, `<home>/.huawei/devbridge/config.yaml`; `None`
/// where the home directory cannot be determined.
pub fn config_path(home: Option<&str>) -> (r: Option<String>)
    ensures
        match home {
            None => r is None,
            Some(h) => r is Some && r.unwrap()@ == crate::control::config::config_path_spec(h@),
        },
{
    crate::control::config::config_path(home)
}

/// The text of a configuration error.
pub open spec fn config_error_text(e: ConfigError) -> Seq<char> {
    match e {
        ConfigError::Load { message } => message@,
        ConfigError::NoDefaultTunnel => "tunnel ID not specified and no default tunnel set; use 'devbridge tunnel set <id>'"@,
        ConfigError::NotLoggedIn => "not logged in: run 'devbridge auth login --api-key <KEY>'"@,
    }
}

impl ConfigError {
    /// The text of the error.
    pub fn message_text(&self) -> (r: String)
        ensures
            r@ == config_error_text(*self),
    {
        match self {
            ConfigError::Load { message } => message.clone(),
            ConfigError::NoDefaultTunnel => crate::text::owned(
                "tunnel ID not specified and no default tunnel set; use 'devbridge tunnel set <id>'",
            ),
            ConfigError::NotLoggedIn => crate::text::owned(
                "not logged in: run 'devbridge auth login --api-key <KEY>'",
            ),
        }
    }
}

} // verus!
