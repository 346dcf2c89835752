//! The local configuration (`~/.huawei/devbridge/config.yaml`) and the
//! changes that commands make to it.
use vstd::prelude::*;
use crate::control::auth::{Credential, UserInfo};
use crate::text::{chars_of, is_blank, is_blank_spec, owned, push_char, push_str};

verus! {

/// The configuration file's contents.
#[derive(Debug, Clone)]
pub struct AppConfig {
    pub credentials: Option<Credential>,
    pub user_info: Option<UserInfo>,
    pub default_tunnel_id: Option<String>,
}

/// Why configuration could not give what was asked of it.
#[derive(Debug, Clone)]
pub enum ConfigError {
    /// The file could not be read or parsed; the text says why.
    Load { message: String },
    /// No non-blank default tunnel is configured.
    NoDefaultTunnel,
    /// No non-blank API key is available.
    MissingApiKey,
}

impl ConfigError {
    /// The text of the error.
    pub fn message_text(&self) -> (r: String)
        ensures
            r@ == match self {
                ConfigError::Load { message } => message@,
                ConfigError::NoDefaultTunnel => "no default tunnel configured; run 'devbridge set <tunnel-id>' first"@,
                ConfigError::MissingApiKey => "missing API key; run 'devbridge auth login' or set HW_API_KEY"@,
            },
    {
        match self {
            ConfigError::Load { message } => message.clone(),
            ConfigError::NoDefaultTunnel => owned(
                "no default tunnel configured; run 'devbridge set <tunnel-id>' first",
            ),
            ConfigError::MissingApiKey => owned(
                "missing API key; run 'devbridge auth login' or set HW_API_KEY",
            ),
        }
    }
}

/// `base` joined with the relative component `part`: a `/` between them
/// unless `base` is empty or already ends with one.
pub open spec fn path_join(base: Seq<char>, part: Seq<char>) -> Seq<char> {
    if base.len() > 0 && base.last() != '/' {
        base + seq!['/'] + part
    } else {
        base + part
    }
}

/// `<home>/.huawei/devbridge`.
pub open spec fn config_dir_spec(home: Seq<char>) -> Seq<char> {
    path_join(path_join(home, ".huawei"@), "devbridge"@)
}

/// `<home>/.huawei/devbridge/config.yaml`.
pub open spec fn config_path_spec(home: Seq<char>) -> Seq<char> {
    path_join(config_dir_spec(home), "config.yaml"@)
}

pub(crate) fn join_path(base: String, part: &str) -> (r: String)
    ensures
        r@ == path_join(base@, part@),
{
    let cs = chars_of(base.as_str());
    let mut s = base;
    if cs.len() > 0 && cs[cs.len() - 1] != '/' {
        push_char(&mut s, '/');
    }
    push_str(&mut s, part);
    s
}

/// The configuration directory under the user's home directory, `None`
/// where the home directory cannot be resolved.
pub fn config_dir(home: Option<&str>) -> (r: Option<String>)
    ensures
        match home {
            None => r is None,
            Some(h) => r is Some && r.unwrap()@ == config_dir_spec(h@),
        },
{
    match home {
        None => None,
        Some(h) => {
            let a = join_path(owned(h), ".huawei");
            Some(join_path(a, "devbridge"))
        },
    }
}

/// The configuration file under the user's home directory, `None` where the
/// home directory cannot be resolved.
pub fn config_path(home: Option<&str>) -> (r: Option<String>)
    ensures
        match home {
            None => r is None,
            Some(h) => r is Some && r.unwrap()@ == config_path_spec(h@),
        },
{
    match config_dir(home) {
        None => None,
        Some(dir) => Some(join_path(dir, "config.yaml")),
    }
}

/// The configuration of a missing file: nothing set.
impl Default for AppConfig {
    fn default() -> (r: AppConfig)
        ensures
            r.credentials is None,
            r.user_info is None,
            r.default_tunnel_id is None,
    {
        AppConfig { credentials: None, user_info: None, default_tunnel_id: None }
    }
}

/// The default tunnel that a loaded configuration names, if non-blank.
pub open spec fn default_tunnel_spec(loaded: Result<AppConfig, ConfigError>) -> Result<
    Seq<char>,
    (),
> {
    match loaded {
        Err(_) => Err(()),
        Ok(c) => match c.default_tunnel_id {
            Some(id) if !is_blank_spec(id@) => Ok(id@),
            _ => Err(()),
        },
    }
}

/// `config` with its default tunnel replaced.
pub open spec fn with_default_tunnel(config: AppConfig, tunnel_id: Option<String>) -> AppConfig {
    AppConfig { default_tunnel_id: tunnel_id, ..config }
}

/// Records the default tunnel, or clears it with `None`.
pub fn set_default_tunnel(config: &mut AppConfig, tunnel_id: Option<String>)
    ensures
        *final(config) == with_default_tunnel(*old(config), tunnel_id),
{
    config.default_tunnel_id = tunnel_id;
}

/// The configured default tunnel; a blank one counts as none, and a load
/// failure is passed on.
pub fn default_tunnel(loaded: Result<AppConfig, ConfigError>) -> (r: Result<String, ConfigError>)
    ensures
        match loaded {
            Err(e) => r == Err::<String, ConfigError>(e),
            Ok(_) => match default_tunnel_spec(loaded) {
                Ok(id) => r is Ok && r.unwrap()@ == id,
                Err(_) => r == Err::<String, ConfigError>(ConfigError::NoDefaultTunnel),
            },
        },
{
    match loaded {
        Err(e) => Err(e),
        Ok(c) => match c.default_tunnel_id {
            Some(id) => {
                if is_blank(id.as_str()) {
                    Err(ConfigError::NoDefaultTunnel)
                } else {
                    Ok(id)
                }
            },
            None => Err(ConfigError::NoDefaultTunnel),
        },
    }
}

/// Law: the default tunnel reads back what was set, a blank or cleared one
/// reads back as none, and setting it leaves credentials and user alone.
pub proof fn lemma_default_tunnel_read_after_write(config: AppConfig, tunnel_id: Option<String>)
    ensures
        (tunnel_id matches Some(id) && !is_blank_spec(id@)) ==> default_tunnel_spec(
            Ok(with_default_tunnel(config, tunnel_id)),
        ) == Ok::<Seq<char>, ()>(tunnel_id.unwrap()@),
        !(tunnel_id matches Some(id) && !is_blank_spec(id@)) ==> default_tunnel_spec(
            Ok(with_default_tunnel(config, tunnel_id)),
        ) is Err,
        with_default_tunnel(config, tunnel_id).credentials == config.credentials,
        with_default_tunnel(config, tunnel_id).user_info == config.user_info,
{
}

} // verus!
