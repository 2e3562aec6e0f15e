//! Connection configuration for the resource store.
//!
//! Each setting can come from a structured configuration variable or from an
//! environment-style override of it, with a fixed default as the last resort.
//! The surrounding process reads the raw sources once and hands them in; the
//! selection rules here are verified.  The namespace is deliberately fixed to
//! one constant value and cannot be overridden.

use vstd::prelude::*;
use vstd::string::*;
use crate::token::TokenInfo;

verus! {

/// The two raw sources a single setting may come from, in priority order:
/// the structured configuration variable, then the environment override.
pub struct VarSource {
    pub var: Option<String>,
    pub env: Option<String>,
}

/// Raw sources for every setting the reconciler uses.
pub struct ConfigSources {
    pub scheme: VarSource,
    pub host: VarSource,
    pub port: VarSource,
    pub group: VarSource,
    pub version: VarSource,
}

/// The resolved connection configuration, read once at startup.
pub struct Config {
    pub scheme: String,
    pub host: String,
    pub port: String,
    pub namespace: String,
    pub group: String,
    pub version: String,
    pub token: Option<TokenInfo>,
}

/// Which value a setting resolves to: the first present source wins,
/// the default stands where both are absent.
pub open spec fn picked(src: VarSource, default: Seq<char>) -> Seq<char> {
    match src.var {
        Some(s) => s@,
        None => match src.env {
            Some(e) => e@,
            None => default,
        },
    }
}

/// Resolves one named setting from its sources.  The namespace ignores every
/// source and override: it is fixed by design.
pub fn resolve_var(name: &str, src: &VarSource, default: &str) -> (r: String)
    ensures
        name@ == "namespace"@ ==> r@ == "smart-parking"@,
        name@ != "namespace"@ ==> r@ == picked(*src, default@),
{
    let name_owned: String = name.to_owned();
    let ns_key: String = "namespace".to_owned();
    if name_owned == ns_key {
        "smart-parking".to_owned()
    } else {
        match &src.var {
            Some(s) => s.clone(),
            None => match &src.env {
                Some(e) => e.clone(),
                None => default.to_owned(),
            },
        }
    }
}

/// What each field of the resolved configuration must be, given the sources.
pub open spec fn cfg_resolved(cfg: Config, sources: ConfigSources, token: Option<TokenInfo>) -> bool {
    &&& cfg.scheme@ == picked(sources.scheme, "http"@)
    &&& cfg.host@ == picked(sources.host, "kubeapi-proxy.smart-parking.svc.cluster.local"@)
    &&& cfg.port@ == picked(sources.port, "8000"@)
    &&& cfg.namespace@ == "smart-parking"@
    &&& cfg.group@ == picked(sources.group, "parking.smart"@)
    &&& cfg.version@ == picked(sources.version, "v1alpha1"@)
    &&& match (cfg.token, token) {
        (Some(t1), Some(t2)) => t1.value@ == t2.value@ && t1.via == t2.via,
        (None, None) => true,
        _ => false,
    }
}

/// Builds the whole configuration from the raw sources and the resolved
/// credential, applying the defaults and the fixed namespace.
pub fn env_cfg(sources: &ConfigSources, token: Option<&TokenInfo>) -> (cfg: Config)
    ensures
        cfg_resolved(cfg, *sources, match token {
            Some(t) => Some(*t),
            None => None,
        }),
{
    proof {
        reveal_strlit("namespace");
        reveal_strlit("k8s_scheme");
        reveal_strlit("k8s_host");
        reveal_strlit("k8s_port");
        reveal_strlit("group");
        reveal_strlit("version");
        assert("namespace"@.len() == 9);
        assert("k8s_scheme"@.len() == 10);
        assert("k8s_host"@.len() == 8);
        assert("k8s_port"@.len() == 8);
        assert("group"@.len() == 5);
        assert("version"@.len() == 7);
    }
    Config {
        scheme: resolve_var("k8s_scheme", &sources.scheme, "http"),
        host: resolve_var("k8s_host", &sources.host, "kubeapi-proxy.smart-parking.svc.cluster.local"),
        port: resolve_var("k8s_port", &sources.port, "8000"),
        namespace: resolve_var("namespace", &VarSource { var: None, env: None }, "smart-parking"),
        group: resolve_var("group", &sources.group, "parking.smart"),
        version: resolve_var("version", &sources.version, "v1alpha1"),
        token: match token {
            Some(t) => Some(t.duplicate()),
            None => None,
        },
    }
}

/// The base URL of the store: `scheme://host:port`.
pub open spec fn base_url(cfg: Config) -> Seq<char> {
    cfg.scheme@ + "://"@ + cfg.host@ + ":"@ + cfg.port@
}

/// Builds the base URL of the store from the configuration.
pub fn k8s_base(cfg: &Config) -> (r: String)
    ensures
        r@ == base_url(*cfg),
{
    let mut url = cfg.scheme.clone();
    url.append("://");
    url.append(cfg.host.as_str());
    url.append(":");
    url.append(cfg.port.as_str());
    url
}

/// The namespace every request addresses.
pub fn ns(cfg: &Config) -> (r: String)
    ensures
        r@ == cfg.namespace@,
{
    cfg.namespace.clone()
}

/// The API group of the resource records.
pub fn group(cfg: &Config) -> (r: String)
    ensures
        r@ == cfg.group@,
{
    cfg.group.clone()
}

/// The API version of the resource records.
pub fn version(cfg: &Config) -> (r: String)
    ensures
        r@ == cfg.version@,
{
    cfg.version.clone()
}

} // verus!
