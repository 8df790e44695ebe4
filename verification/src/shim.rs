//! The fallback runner configuration: how environment values and defaults
//! combine when the full runner API is not in use, including the duration
//! grammar its refresh interval accepts.

use vstd::prelude::*;
use crate::strutil::parsed_u16;
use crate::strutil::parsed_u64;
use crate::strutil::parse_u16;
use crate::strutil::parse_u64;
use crate::strutil::string_views;
use crate::strutil::trim;
use crate::strutil::trimmed;
use crate::config::opt_text;

verus! {

broadcast use vstd::seq::group_seq_axioms, vstd::std_specs::vec::group_vec_axioms, vstd::string::group_string_axioms;

/// The fallback runner's configuration.
#[derive(Debug)]
pub struct RunnerConfig {
    pub bindings: Vec<String>,
    pub port: u16,
    pub secrets_backend: String,
    pub pack_source: String,
    pub pack_index_url: String,
    pub pack_cache_dir: String,
    pub pack_public_key: Option<String>,
    pub pack_refresh_interval_secs: u64,
    pub tenant_resolver: Option<String>,
}

/// What the embedder found in the environment for the fallback runner.
#[derive(Debug)]
pub struct ShimEnv {
    pub port: Option<String>,
    pub secrets_backend: Option<String>,
    pub pack_source: Option<String>,
    pub pack_index_url: Option<String>,
    pub pack_cache_dir: Option<String>,
    pub pack_public_key: Option<String>,
    pub refresh_interval: Option<String>,
    pub refresh_interval_secs: Option<String>,
    pub tenant_resolver: Option<String>,
}

/// Why the fallback runner cannot be configured.
#[derive(Debug, Clone, Copy, PartialEq, Eq)]
pub enum ShimError {
    /// At least one bindings file is required.
    NoBindings,
}

/// The seconds a duration string denotes: a bare decimal number, or a
/// decimal number carrying an `s` or `S` suffix, with whitespace allowed
/// around both the whole string and the number.
pub open spec fn duration_secs(raw: Seq<char>) -> Option<u64> {
    match parsed_u64(raw) {
        Some(v) => Some(v),
        None => {
            let t = trimmed(raw);
            if t.len() > 0 && (t[t.len() - 1] == 's' || t[t.len() - 1] == 'S') {
                parsed_u64(trimmed(t.drop_last()))
            } else {
                None
            }
        },
    }
}

/// The seconds a duration string denotes, per `duration_secs`.
pub fn parse_duration_string(raw: &str) -> (r: Option<u64>)
    ensures
        r == duration_secs(raw@),
{
    match parse_u64(raw) {
        Some(v) => Some(v),
        None => {
            let t = trim(raw);
            let len = t.as_str().unicode_len();
            if len == 0 {
                return None;
            }
            let last = t.as_str().get_char(len - 1);
            if last != 's' && last != 'S' {
                return None;
            }
            let body = t.as_str().substring_char(0, len - 1).to_owned();
            proof {
                assert(body@ =~= trimmed(raw@).drop_last());
            }
            let stripped = trim(body.as_str());
            parse_u64(stripped.as_str())
        },
    }
}

/// The refresh period the environment calls for: a parseable
/// `refresh_interval` wins, then a parseable plain-seconds value, then the
/// thirty-second default.
pub open spec fn refresh_secs(env: ShimEnv) -> u64 {
    let from_duration = match env.refresh_interval {
        Some(raw) => duration_secs(raw@),
        None => None,
    };
    match from_duration {
        Some(d) => d,
        None => match env.refresh_interval_secs {
            Some(raw) => match parsed_u64(raw@) {
                Some(v) => v,
                None => 30,
            },
            None => 30,
        },
    }
}

/// The refresh period, per `refresh_secs`.
pub fn parse_refresh_interval(env: &ShimEnv) -> (r: u64)
    ensures
        r == refresh_secs(*env),
{
    if let Some(raw) = &env.refresh_interval {
        if let Some(d) = parse_duration_string(raw.as_str()) {
            return d;
        }
    }
    if let Some(raw) = &env.refresh_interval_secs {
        if let Some(v) = parse_u64(raw.as_str()) {
            return v;
        }
    }
    30
}

/// The port the environment calls for: a parseable value wins, else the
/// default.
pub open spec fn port_of(env: ShimEnv) -> u16 {
    match env.port {
        Some(raw) => match parsed_u16(raw@) {
            Some(v) => v,
            None => 8080,
        },
        None => 8080,
    }
}

/// An environment string with a fallback.
pub open spec fn text_or(o: Option<String>, dflt: Seq<char>) -> Seq<char> {
    match o {
        Some(s) => s@,
        None => dflt,
    }
}

fn string_or(o: &Option<String>, dflt: &str) -> (r: String)
    ensures
        r@ == text_or(*o, dflt@),
{
    match o {
        Some(s) => s.clone(),
        None => String::from_str(dflt),
    }
}

impl RunnerConfig {
    /// The configuration the bindings list and environment denote. Fails
    /// exactly when the bindings list is empty.
    pub fn from_env(bindings: Vec<String>, env: &ShimEnv) -> (r: Result<RunnerConfig, ShimError>)
        ensures
            bindings@.len() == 0 ==> r == Result::<RunnerConfig, ShimError>::Err(
                ShimError::NoBindings,
            ),
            bindings@.len() > 0 ==> (r matches Ok(c) && {
                &&& string_views(c.bindings@) == string_views(bindings@)
                &&& c.port == port_of(*env)
                &&& c.secrets_backend@ == text_or(env.secrets_backend, "env"@)
                &&& c.pack_source@ == text_or(env.pack_source, "fs"@)
                &&& c.pack_index_url@ == text_or(env.pack_index_url, "./examples/index.json"@)
                &&& c.pack_cache_dir@ == text_or(env.pack_cache_dir, ".packs"@)
                &&& opt_text(c.pack_public_key) == opt_text(env.pack_public_key)
                &&& c.pack_refresh_interval_secs == refresh_secs(*env)
                &&& opt_text(c.tenant_resolver) == opt_text(env.tenant_resolver)
            }),
    {
        if bindings.len() == 0 {
            return Err(ShimError::NoBindings);
        }
        let port = match &env.port {
            Some(raw) => match parse_u16(raw.as_str()) {
                Some(v) => v,
                None => 8080,
            },
            None => 8080,
        };
        Ok(
            RunnerConfig {
                bindings,
                port,
                secrets_backend: string_or(&env.secrets_backend, "env"),
                pack_source: string_or(&env.pack_source, "fs"),
                pack_index_url: string_or(&env.pack_index_url, "./examples/index.json"),
                pack_cache_dir: string_or(&env.pack_cache_dir, ".packs"),
                pack_public_key: crate::types::clone_opt_string(&env.pack_public_key),
                pack_refresh_interval_secs: parse_refresh_interval(env),
                tenant_resolver: crate::types::clone_opt_string(&env.tenant_resolver),
            },
        )
    }
}

} // verus!
