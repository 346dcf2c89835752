//! Runtime settings: endpoints and cluster, chosen from the process
//! environment, the build environment and built-in defaults.
use vstd::prelude::*;
use crate::text::{
    ascii_lower, chars_of, is_blank, is_blank_spec, lemma_trim_end_char, owned, push_str,
    to_ascii_lower, trim_end_char, trim_end_matches_char,
};

verus! {

pub const DEFAULT_SERVER_DOMAIN: &'static str = "https://bridge.developer.myhuaweicloud.com";

pub const DEFAULT_LOGIN_URL: &'static str = "https://devstation.connect.huaweicloud.com";

pub const DEFAULT_GATEWAY_ADDR: &'static str = "gateway.devbridge-s2.hwtunnel.com:443";

pub const DEFAULT_GATEWAY_HOST: &'static str = "devbridge-s2.hwtunnel.com";

pub const DEFAULT_CLUSTER_ID: &'static str = "devbridge-s2";

pub const DEFAULT_RELEASE_REPO: &'static str = "hu-qi/devspace-devbridge-rs";

pub const API_PATH: &'static str = "/open-api-inner/v1/relay-controller";

/// Endpoints, cluster and TLS policy of the DevBridge service.
#[derive(Clone, Debug)]
pub struct Settings {
    pub server_domain: String,
    pub login_url: String,
    pub gateway_addr: String,
    pub gateway_host: String,
    pub cluster_id: String,
    pub release_repo: String,
    pub insecure_tls: bool,
}

/// The value of one setting in the process environment and in the build
/// environment.
#[derive(Clone, Debug)]
pub struct SettingSources {
    pub runtime: Option<String>,
    pub build: Option<String>,
}

/// What the environment says about each setting (`DEVBRIDGE_SERVER_DOMAIN`,
/// `DEVBRIDGE_LOGIN_URL`, `DEVBRIDGE_GATEWAY_ADDR`, `DEVBRIDGE_GATEWAY_HOST`,
/// `DEVBRIDGE_CLUSTER_ID`, `DEVBRIDGE_RELEASE_REPO`,
/// `DEVBRIDGE_INSECURE_TLS`).
#[derive(Clone, Debug)]
pub struct SettingsEnvironment {
    pub server_domain: SettingSources,
    pub login_url: SettingSources,
    pub gateway_addr: SettingSources,
    pub gateway_host: SettingSources,
    pub cluster_id: SettingSources,
    pub release_repo: SettingSources,
    pub insecure_tls: Option<String>,
}

/// A non-blank runtime value wins, then the build value, then the fallback.
pub open spec fn runtime_or_build_spec(
    runtime: Option<Seq<char>>,
    build_value: Option<Seq<char>>,
    fallback: Seq<char>,
) -> Seq<char> {
    if runtime is Some && !is_blank_spec(runtime.unwrap()) {
        runtime.unwrap()
    } else if build_value is Some {
        build_value.unwrap()
    } else {
        fallback
    }
}

/// The spec view of an optional string.
pub open spec fn opt_view(s: Option<String>) -> Option<Seq<char>> {
    match s {
        Some(v) => Some(v@),
        None => None,
    }
}

/// The value a setting takes from its sources and its fallback.
pub open spec fn setting_value(src: SettingSources, fallback: Seq<char>) -> Seq<char> {
    runtime_or_build_spec(opt_view(src.runtime), opt_view(src.build), fallback)
}

/// A flag is on when its value, ASCII lower-cased, is `1`, `true`, `yes`
/// or `on`.
pub open spec fn flag_on(value: Option<Seq<char>>) -> bool {
    match value {
        None => false,
        Some(v) => {
            let l = Seq::new(v.len(), |i: int| ascii_lower(v[i]));
            l == "1"@ || l == "true"@ || l == "yes"@ || l == "on"@
        },
    }
}

/// Law: a setting's sources are taken in order: a non-blank runtime value
/// wins over the build-time value whatever that is; a blank or missing
/// runtime value gives way to the build-time value; the fallback is used
/// only when neither source gives a value.
pub proof fn lemma_setting_sources_in_order(
    runtime: Option<Seq<char>>,
    build_value: Option<Seq<char>>,
    fallback: Seq<char>,
)
    ensures
        (runtime is Some && !is_blank_spec(runtime.unwrap())) ==> runtime_or_build_spec(
            runtime,
            build_value,
            fallback,
        ) == runtime.unwrap(),
        ((runtime is None || is_blank_spec(runtime.unwrap())) && build_value is Some)
            ==> runtime_or_build_spec(runtime, build_value, fallback) == build_value.unwrap(),
        ((runtime is None || is_blank_spec(runtime.unwrap())) && build_value is None)
            ==> runtime_or_build_spec(runtime, build_value, fallback) == fallback,
{
}

/// Law: whether a flag is on does not depend on the ASCII case of its
/// value; an unset flag is off, and an empty or longer-than-four value is
/// never on.
pub proof fn lemma_flag_case_insensitive(v: Seq<char>, w: Seq<char>)
    requires
        v.len() == w.len(),
        forall|i: int| 0 <= i < v.len() ==> ascii_lower(#[trigger] v[i]) == ascii_lower(w[i]),
    ensures
        flag_on(Some(v)) == flag_on(Some(w)),
        !flag_on(None),
        flag_on(Some(v)) ==> 1 <= v.len() <= 4,
{
    let lv = Seq::new(v.len(), |i: int| ascii_lower(v[i]));
    let lw = Seq::new(w.len(), |i: int| ascii_lower(w[i]));
    assert(lv =~= lw);
    reveal_strlit("1");
    reveal_strlit("true");
    reveal_strlit("yes");
    reveal_strlit("on");
}

/// The API root below a server domain, without a doubled slash.
pub open spec fn api_base_url_spec(server_domain: Seq<char>) -> Seq<char> {
    trim_end_char(server_domain, '/') + API_PATH@
}

/// The setting's value: a non-blank runtime value, else the build-time
/// value, else the fallback.
pub fn runtime_or_build(runtime: Option<String>, build_value: Option<&str>, fallback: &str) -> (r:
    String)
    ensures
        r@ == runtime_or_build_spec(
            opt_view(runtime),
            match build_value {
                Some(b) => Some(b@),
                None => None,
            },
            fallback@,
        ),
{
    match runtime {
        Some(v) if !is_blank(v.as_str()) => v,
        _ => match build_value {
            Some(b) => owned(b),
            None => owned(fallback),
        },
    }
}

fn lower_string(s: &str) -> (r: Vec<char>)
    ensures
        r@ == Seq::new(s@.len(), |i: int| ascii_lower(s@[i])),
{
    let cs = chars_of(s);
    let mut out: Vec<char> = Vec::new();
    let mut i: usize = 0;
    while i < cs.len()
        invariant
            cs@ == s@,
            i <= cs@.len(),
            out@ == Seq::new(i as nat, |j: int| ascii_lower(s@[j])),
        decreases cs@.len() - i,
    {
        let c = to_ascii_lower(cs[i]);
        out.push(c);
        i = i + 1;
        assert(out@ =~= Seq::new(i as nat, |j: int| ascii_lower(s@[j])));
    }
    out
}

fn chars_eq(a: &Vec<char>, b: &str) -> (r: bool)
    ensures
        r == (a@ == b@),
{
    let y = chars_of(b);
    if a.len() != y.len() {
        return false;
    }
    let mut i: usize = 0;
    while i < a.len()
        invariant
            y@ == b@,
            a@.len() == y@.len(),
            i <= a@.len(),
            forall|j: int| 0 <= j < i ==> a@[j] == y@[j],
        decreases a@.len() - i,
    {
        if a[i] != y[i] {
            return false;
        }
        i = i + 1;
    }
    assert(a@ =~= y@);
    true
}

/// Whether a flag value turns the flag on.
pub fn env_flag(value: Option<&str>) -> (r: bool)
    ensures
        r == flag_on(
            match value {
                Some(v) => Some(v@),
                None => None,
            },
        ),
{
    match value {
        None => false,
        Some(v) => {
            let l = lower_string(v);
            chars_eq(&l, "1") || chars_eq(&l, "true") || chars_eq(&l, "yes") || chars_eq(&l, "on")
        },
    }
}

fn build_str(s: &Option<String>) -> (r: Option<&str>)
    ensures
        match r {
            Some(b) => s is Some && b@ == s.unwrap()@,
            None => s is None,
        },
{
    match s {
        Some(v) => Some(v.as_str()),
        None => None,
    }
}

fn resolve(src: SettingSources, fallback: &str) -> (r: String)
    ensures
        r@ == setting_value(src, fallback@),
{
    let b = build_str(&src.build);
    runtime_or_build(src.runtime, b, fallback)
}

impl SettingsEnvironment {
    /// An environment that sets nothing.
    pub fn empty() -> (r: SettingsEnvironment)
        ensures
            r.server_domain.runtime is None && r.server_domain.build is None,
            r.login_url.runtime is None && r.login_url.build is None,
            r.gateway_addr.runtime is None && r.gateway_addr.build is None,
            r.gateway_host.runtime is None && r.gateway_host.build is None,
            r.cluster_id.runtime is None && r.cluster_id.build is None,
            r.release_repo.runtime is None && r.release_repo.build is None,
            r.insecure_tls is None,
    {
        SettingsEnvironment {
            server_domain: SettingSources { runtime: None, build: None },
            login_url: SettingSources { runtime: None, build: None },
            gateway_addr: SettingSources { runtime: None, build: None },
            gateway_host: SettingSources { runtime: None, build: None },
            cluster_id: SettingSources { runtime: None, build: None },
            release_repo: SettingSources { runtime: None, build: None },
            insecure_tls: None,
        }
    }
}

impl Settings {
    /// The settings that an environment selects.
    pub fn from_environment(env: SettingsEnvironment) -> (s: Settings)
        ensures
            s.server_domain@ == setting_value(env.server_domain, DEFAULT_SERVER_DOMAIN@),
            s.login_url@ == setting_value(env.login_url, DEFAULT_LOGIN_URL@),
            s.gateway_addr@ == setting_value(env.gateway_addr, DEFAULT_GATEWAY_ADDR@),
            s.gateway_host@ == setting_value(env.gateway_host, DEFAULT_GATEWAY_HOST@),
            s.cluster_id@ == setting_value(env.cluster_id, DEFAULT_CLUSTER_ID@),
            s.release_repo@ == setting_value(env.release_repo, DEFAULT_RELEASE_REPO@),
            s.insecure_tls == flag_on(opt_view(env.insecure_tls)),
    {
        let insecure = match &env.insecure_tls {
            Some(v) => env_flag(Some(v.as_str())),
            None => env_flag(None),
        };
        Settings {
            server_domain: resolve(env.server_domain, DEFAULT_SERVER_DOMAIN),
            login_url: resolve(env.login_url, DEFAULT_LOGIN_URL),
            gateway_addr: resolve(env.gateway_addr, DEFAULT_GATEWAY_ADDR),
            gateway_host: resolve(env.gateway_host, DEFAULT_GATEWAY_HOST),
            cluster_id: resolve(env.cluster_id, DEFAULT_CLUSTER_ID),
            release_repo: resolve(env.release_repo, DEFAULT_RELEASE_REPO),
            insecure_tls: insecure,
        }
    }

    /// The REST root of the management API.
    pub fn api_base_url(&self) -> (r: String)
        ensures
            r@ == api_base_url_spec(self.server_domain@),
    {
        let mut s = trim_end_matches_char(self.server_domain.as_str(), '/');
        push_str(&mut s, API_PATH);
        s
    }
}

/// The settings of an environment that sets nothing: the built-in defaults.
impl Default for Settings {
    fn default() -> (s: Settings)
        ensures
            s.server_domain@ == DEFAULT_SERVER_DOMAIN@,
            s.login_url@ == DEFAULT_LOGIN_URL@,
            s.gateway_addr@ == DEFAULT_GATEWAY_ADDR@,
            s.gateway_host@ == DEFAULT_GATEWAY_HOST@,
            s.cluster_id@ == DEFAULT_CLUSTER_ID@,
            s.release_repo@ == DEFAULT_RELEASE_REPO@,
            !s.insecure_tls,
    {
        Settings::from_environment(SettingsEnvironment::empty())
    }
}

/// Law: the API root ignores trailing slashes of the server domain, and
/// never joins the path with a doubled slash.
pub proof fn lemma_api_base_url_slashes(server_domain: Seq<char>)
    ensures
        api_base_url_spec(server_domain.push('/')) == api_base_url_spec(server_domain),
        trim_end_char(server_domain, '/').len() == 0 || trim_end_char(server_domain, '/').last()
            != '/',
{
    lemma_trim_end_char(server_domain, '/');
}

} // verus!
