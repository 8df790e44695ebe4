//! Startup configuration: how command-line flags, environment values and
//! resolved secrets combine into an immutable `AppConfig`, and the
//! production-mode invariants `validate` re-checks.
//!
//! Reading the environment, secret stores and files is the embedder's work;
//! it hands the outcomes in as plain values (`EnvInputs`, `SecretInputs`) and
//! every decision made on them is verified here.

use vstd::prelude::*;
use crate::strutil::clone_string_vec;
use crate::strutil::string_views;
use crate::strutil::trim;
use crate::strutil::trimmed;

verus! {

broadcast use vstd::seq::group_seq_axioms, vstd::std_specs::vec::group_vec_axioms, vstd::string::group_string_axioms;

/// The command-line surface: a development switch, the packs directory, an
/// explicit transport URL, a subject-prefix override, and the allow-list of
/// secret names.
#[derive(Debug)]
pub struct CliArgs {
    pub dev: bool,
    pub packs_dir: String,
    pub nats_url: Option<String>,
    pub subject_prefix: String,
    pub allowed_secrets: Vec<String>,
}

#[derive(Debug, Clone, Copy, PartialEq, Eq, Structural)]
pub enum Mode {
    Dev,
    Prod,
}

#[derive(Debug)]
pub struct NatsConfig {
    pub url: String,
    pub auth: NatsAuth,
}

#[derive(Debug)]
pub enum NatsAuth {
    Anonymous,
    Jwt { jwt: String, seed: String },
}

#[derive(Debug)]
pub enum LoggingConfig {
    DevFile { path: String },
    Telemetry,
}

#[derive(Debug)]
pub enum TelemetryConfig {
    Disabled,
    Preconfigured { payload: String, source: TelemetrySource },
}

impl TelemetryConfig {
    /// A telemetry configuration built from a resolved payload.
    pub fn from_parts(payload: String, source: TelemetrySource) -> (r: Self)
        ensures
            r matches TelemetryConfig::Preconfigured { payload: p, source: s } && p == payload && s
                == source,
    {
        TelemetryConfig::Preconfigured { payload, source }
    }

    /// Whether a telemetry pipeline is configured.
    pub fn is_enabled(&self) -> (r: bool)
        ensures
            r == (*self is Preconfigured),
    {
        match self {
            TelemetryConfig::Preconfigured { .. } => true,
            TelemetryConfig::Disabled => false,
        }
    }
}

#[derive(Debug)]
pub enum TelemetrySource {
    Env,
    File(String),
}

impl TelemetrySource {
    /// A short tag naming where the payload came from.
    pub fn as_str(&self) -> (r: &'static str)
        ensures
            (*self is Env) ==> r@ == "env"@,
            (*self is File) ==> r@ == "file"@,
    {
        match self {
            TelemetrySource::Env => "env",
            TelemetrySource::File(_) => "file",
        }
    }
}

/// The subject layout of the transport: one prefix, one inbound and one
/// outbound subject per tenant.
#[derive(Debug)]
pub struct SubjectConfig {
    pub base: String,
}

impl SubjectConfig {
    pub fn new(base: String) -> (r: Self)
        ensures
            r.base == base,
    {
        SubjectConfig { base }
    }

    /// The subject a tenant's inbound events arrive on:
    /// `{prefix}.in.{tenant}`.
    pub fn ingress_subject(&self, tenant: &str) -> (r: String)
        ensures
            r@ == self.base@ + ".in."@ + tenant@,
    {
        let mut out = self.base.clone();
        out.append(".in.");
        out.append(tenant);
        out
    }

    /// The subject a tenant's outbound events are published on:
    /// `{prefix}.out.{tenant}`.
    pub fn egress_subject(&self, tenant: &str) -> (r: String)
        ensures
            r@ == self.base@ + ".out."@ + tenant@,
    {
        let mut out = self.base.clone();
        out.append(".out.");
        out.append(tenant);
        out
    }
}

/// The telemetry payload file named by the environment, with the outcome of
/// reading it (`None` when it could not be read).
#[derive(Debug)]
pub struct TelemetryFile {
    pub path: String,
    pub contents: Option<String>,
}

/// What the embedder found in the process environment.
#[derive(Debug)]
pub struct EnvInputs {
    /// The transport URL environment variable, when set.
    pub nats_url: Option<String>,
    /// Whether the auth token environment variable is set at all.
    pub has_nats_jwt: bool,
    /// Whether the auth seed environment variable is set at all.
    pub has_nats_seed: bool,
    /// The literal telemetry payload from the environment, when set.
    pub telemetry_inline: Option<String>,
    /// The telemetry payload file named by the environment, when set.
    pub telemetry_file: Option<TelemetryFile>,
}

/// What the secret resolver returned for each name the bridge needs;
/// `None` means the name did not resolve.
#[derive(Debug)]
pub struct SecretInputs {
    pub nats_url: Option<String>,
    pub nats_jwt: Option<String>,
    pub nats_seed: Option<String>,
    pub nats_nkey_seed: Option<String>,
}

/// A production-mode invariant that does not hold.
#[derive(Debug, Clone, Copy, PartialEq, Eq, Structural)]
pub enum ConfigFault {
    EmptyJwt,
    EmptySeed,
    AuthNotToken,
    NoAllowedSecrets,
}

/// Why a configuration could not be built or does not hold up.
#[derive(Debug)]
pub enum ConfigError {
    /// A required secret did not resolve; carries the secret's name.
    MissingSecret(String),
    /// The telemetry payload file could not be read; carries its path.
    TelemetryUnreadable(String),
    /// A production-mode invariant does not hold.
    InvalidConfig(ConfigFault),
}

/// The mathematical model of a `ConfigError`.
pub enum ConfigErrorV {
    MissingSecret(Seq<char>),
    TelemetryUnreadable(Seq<char>),
    InvalidConfig(ConfigFault),
}

impl View for ConfigError {
    type V = ConfigErrorV;

    open spec fn view(&self) -> ConfigErrorV {
        match self {
            ConfigError::MissingSecret(n) => ConfigErrorV::MissingSecret(n@),
            ConfigError::TelemetryUnreadable(p) => ConfigErrorV::TelemetryUnreadable(p@),
            ConfigError::InvalidConfig(f) => ConfigErrorV::InvalidConfig(*f),
        }
    }
}

/// The application configuration, immutable once built.
#[derive(Debug)]
pub struct AppConfig {
    pub mode: Mode,
    pub packs_dir: String,
    pub nats: NatsConfig,
    pub logging: LoggingConfig,
    pub subjects: SubjectConfig,
    pub telemetry: TelemetryConfig,
    pub warnings: Vec<String>,
    pub allowed_secrets: Vec<String>,
}

/// The transport URL development mode resolves: the explicit flag, then the
/// environment, then the local default.
pub open spec fn dev_url(args: CliArgs, env: EnvInputs) -> Seq<char> {
    match args.nats_url {
        Some(u) => u@,
        None => match env.nats_url {
            Some(u) => u@,
            None => "nats://127.0.0.1:4222"@,
        },
    }
}

/// Whether telemetry resolution fails outright: no inline payload, and the
/// named payload file could not be read.
pub open spec fn telemetry_fails(env: EnvInputs) -> bool {
    env.telemetry_inline is None && (env.telemetry_file matches Some(tf) && tf.contents is None)
}

/// The path of the telemetry payload file the environment names.
pub open spec fn telemetry_file_path(env: EnvInputs) -> Seq<char> {
    match env.telemetry_file {
        Some(tf) => tf.path@,
        None => Seq::empty(),
    }
}

/// Whether `t` is the telemetry configuration the environment calls for:
/// an inline payload wins over a payload file, a payload that trims to
/// nothing disables telemetry, and no payload disables it.
pub open spec fn telemetry_of(env: EnvInputs, t: TelemetryConfig) -> bool {
    match env.telemetry_inline {
        Some(v) => if trimmed(v@).len() == 0 {
            t is Disabled
        } else {
            t matches TelemetryConfig::Preconfigured { payload, source } && payload@ == trimmed(v@)
                && source is Env
        },
        None => match env.telemetry_file {
            Some(tf) => match tf.contents {
                Some(c) => if trimmed(c@).len() == 0 {
                    t is Disabled
                } else {
                    t matches TelemetryConfig::Preconfigured { payload, source } && payload@
                        == trimmed(c@) && (source matches TelemetrySource::File(p) && p@
                        == tf.path@)
                },
                None => false,
            },
            None => t is Disabled,
        },
    }
}

fn resolve_telemetry(env: &EnvInputs) -> (r: Result<TelemetryConfig, ConfigError>)
    ensures
        match r {
            Ok(t) => !telemetry_fails(*env) && telemetry_of(*env, t),
            Err(e) => telemetry_fails(*env) && e@ == ConfigErrorV::TelemetryUnreadable(
                telemetry_file_path(*env),
            ),
        },
{
    match &env.telemetry_inline {
        Some(v) => {
            let t = trim(v.as_str());
            if t.unicode_len() == 0 {
                Ok(TelemetryConfig::Disabled)
            } else {
                Ok(TelemetryConfig::Preconfigured { payload: t, source: TelemetrySource::Env })
            }
        },
        None => match &env.telemetry_file {
            Some(tf) => match &tf.contents {
                Some(c) => {
                    let t = trim(c.as_str());
                    if t.unicode_len() == 0 {
                        Ok(TelemetryConfig::Disabled)
                    } else {
                        Ok(
                            TelemetryConfig::Preconfigured {
                                payload: t,
                                source: TelemetrySource::File(tf.path.clone()),
                            },
                        )
                    }
                },
                None => Err(ConfigError::TelemetryUnreadable(tf.path.clone())),
            },
            None => Ok(TelemetryConfig::Disabled),
        },
    }
}

/// Why production-mode resolution fails, when it does: the transport URL
/// first, then the auth token, then the auth seed (primary or fallback
/// name), then an unreadable telemetry file.
pub open spec fn prod_failure(args: CliArgs, env: EnvInputs, secrets: SecretInputs) -> Option<
    ConfigErrorV,
> {
    if args.nats_url is None && secrets.nats_url is None {
        Some(ConfigErrorV::MissingSecret("NATS_URL"@))
    } else if secrets.nats_jwt is None {
        Some(ConfigErrorV::MissingSecret("NATS_JWT"@))
    } else if secrets.nats_seed is None && secrets.nats_nkey_seed is None {
        Some(ConfigErrorV::MissingSecret("NATS_SEED"@))
    } else if telemetry_fails(env) {
        Some(ConfigErrorV::TelemetryUnreadable(telemetry_file_path(env)))
    } else {
        None
    }
}

/// The transport URL production mode resolves: the explicit flag first, then
/// the secret store.
pub open spec fn prod_url(args: CliArgs, secrets: SecretInputs) -> Seq<char> {
    match args.nats_url {
        Some(u) => u@,
        None => match secrets.nats_url {
            Some(u) => u@,
            None => Seq::empty(),
        },
    }
}

/// The auth seed production mode resolves: the primary secret name first,
/// then the fallback.
pub open spec fn prod_seed(secrets: SecretInputs) -> Seq<char> {
    match secrets.nats_seed {
        Some(s) => s@,
        None => match secrets.nats_nkey_seed {
            Some(s) => s@,
            None => Seq::empty(),
        },
    }
}

/// The startup warnings development mode accumulates, in order: the
/// missing auth material first, then an unusable telemetry payload.
pub open spec fn dev_warnings(env: EnvInputs) -> Seq<Seq<char>> {
    (if dev_auth_warning(env) {
        seq!["NATS_JWT/NATS_SEED not set; secured NATS stacks unavailable in --dev"@]
    } else {
        Seq::empty()
    }) + (if telemetry_fails(env) {
        seq!["telemetry configuration ignored in dev mode"@]
    } else {
        Seq::empty()
    })
}

/// Whether development mode owes the operator a warning that the secured
/// transport stack is unavailable.
pub open spec fn dev_auth_warning(env: EnvInputs) -> bool {
    !env.has_nats_jwt || !env.has_nats_seed
}

impl AppConfig {
    /// The configuration the given flags, environment and secrets denote.
    ///
    /// Development mode never fails: the transport is anonymous, the URL
    /// falls back from flag to environment to the local default, missing
    /// auth material and a failing telemetry payload become warnings.
    /// Production mode requires a URL (flag or secret), an auth token and
    /// seed from the secret store, and a readable telemetry payload, failing
    /// per `prod_failure`.
    pub fn from_args(args: &CliArgs, env: &EnvInputs, secrets: &SecretInputs) -> (r: Result<
        AppConfig,
        ConfigError,
    >)
        ensures
            args.dev ==> r is Ok,
            !args.dev ==> match r {
                Ok(_) => prod_failure(*args, *env, *secrets) is None,
                Err(e) => prod_failure(*args, *env, *secrets) == Some(e@),
            },
            r matches Ok(c) ==> {
                &&& c.mode == (if args.dev {
                    Mode::Dev
                } else {
                    Mode::Prod
                })
                &&& c.packs_dir@ == args.packs_dir@
                &&& c.subjects.base@ == args.subject_prefix@
                &&& string_views(c.allowed_secrets@) == string_views(args.allowed_secrets@)
                &&& args.dev ==> {
                    &&& c.nats.url@ == dev_url(*args, *env)
                    &&& c.nats.auth is Anonymous
                    &&& c.logging matches LoggingConfig::DevFile { path } && path@ == "demo.log"@
                    &&& (if telemetry_fails(*env) {
                        c.telemetry is Disabled
                    } else {
                        telemetry_of(*env, c.telemetry)
                    })
                    &&& string_views(c.warnings@) == dev_warnings(*env)
                }
                &&& !args.dev ==> {
                    &&& c.nats.url@ == prod_url(*args, *secrets)
                    &&& c.nats.auth matches NatsAuth::Jwt { jwt, seed } && Some(jwt@)
                        == opt_text(secrets.nats_jwt) && seed@ == prod_seed(*secrets)
                    &&& c.logging is Telemetry
                    &&& telemetry_of(*env, c.telemetry)
                    &&& c.warnings@.len() == 0
                }
            },
    {
        if args.dev {
            Self::dev(args, env)
        } else {
            Self::prod(args, env, secrets)
        }
    }

    fn dev(args: &CliArgs, env: &EnvInputs) -> (r: Result<AppConfig, ConfigError>)
        ensures
            r matches Ok(c) && {
                &&& c.mode == Mode::Dev
                &&& c.packs_dir@ == args.packs_dir@
                &&& c.subjects.base@ == args.subject_prefix@
                &&& string_views(c.allowed_secrets@) == string_views(args.allowed_secrets@)
                &&& c.nats.url@ == dev_url(*args, *env)
                &&& c.nats.auth is Anonymous
                &&& c.logging matches LoggingConfig::DevFile { path } && path@ == "demo.log"@
                &&& (if telemetry_fails(*env) {
                    c.telemetry is Disabled
                } else {
                    telemetry_of(*env, c.telemetry)
                })
                &&& string_views(c.warnings@) == dev_warnings(*env)
            },
    {
        let mut warnings: Vec<String> = Vec::new();
        let url = match &args.nats_url {
            Some(u) => u.clone(),
            None => match &env.nats_url {
                Some(u) => u.clone(),
                None => String::from_str("nats://127.0.0.1:4222"),
            },
        };
        if !env.has_nats_jwt || !env.has_nats_seed {
            warnings.push(
                String::from_str("NATS_JWT/NATS_SEED not set; secured NATS stacks unavailable in --dev"),
            );
        }
        let telemetry = match resolve_telemetry(env) {
            Ok(t) => t,
            Err(_) => {
                warnings.push(String::from_str("telemetry configuration ignored in dev mode"));
                TelemetryConfig::Disabled
            },
        };
        proof {
            assert(string_views(warnings@) =~= dev_warnings(*env));
        }
        Ok(
            AppConfig {
                mode: Mode::Dev,
                packs_dir: args.packs_dir.clone(),
                nats: NatsConfig { url, auth: NatsAuth::Anonymous },
                logging: LoggingConfig::DevFile { path: String::from_str("demo.log") },
                subjects: SubjectConfig::new(args.subject_prefix.clone()),
                telemetry,
                warnings,
                allowed_secrets: clone_string_vec(&args.allowed_secrets),
            },
        )
    }

    fn prod(args: &CliArgs, env: &EnvInputs, secrets: &SecretInputs) -> (r: Result<
        AppConfig,
        ConfigError,
    >)
        ensures
            match r {
                Ok(c) => {
                    &&& prod_failure(*args, *env, *secrets) is None
                    &&& c.mode == Mode::Prod
                    &&& c.packs_dir@ == args.packs_dir@
                    &&& c.subjects.base@ == args.subject_prefix@
                    &&& string_views(c.allowed_secrets@) == string_views(args.allowed_secrets@)
                    &&& c.nats.url@ == prod_url(*args, *secrets)
                    &&& c.nats.auth matches NatsAuth::Jwt { jwt, seed } && Some(jwt@) == opt_text(
                        secrets.nats_jwt,
                    ) && seed@ == prod_seed(*secrets)
                    &&& c.logging is Telemetry
                    &&& telemetry_of(*env, c.telemetry)
                    &&& c.warnings@.len() == 0
                },
                Err(e) => prod_failure(*args, *env, *secrets) == Some(e@),
            },
    {
        let url = match &args.nats_url {
            Some(u) => u.clone(),
            None => match &secrets.nats_url {
                Some(u) => u.clone(),
                None => {
                    return Err(ConfigError::MissingSecret(String::from_str("NATS_URL")));
                },
            },
        };
        let jwt = match &secrets.nats_jwt {
            Some(j) => j.clone(),
            None => {
                return Err(ConfigError::MissingSecret(String::from_str("NATS_JWT")));
            },
        };
        let seed = match &secrets.nats_seed {
            Some(s) => s.clone(),
            None => match &secrets.nats_nkey_seed {
                Some(s) => s.clone(),
                None => {
                    return Err(ConfigError::MissingSecret(String::from_str("NATS_SEED")));
                },
            },
        };
        let telemetry = match resolve_telemetry(env) {
            Ok(t) => t,
            Err(e) => {
                return Err(e);
            },
        };
        Ok(
            AppConfig {
                mode: Mode::Prod,
                packs_dir: args.packs_dir.clone(),
                nats: NatsConfig { url, auth: NatsAuth::Jwt { jwt, seed } },
                logging: LoggingConfig::Telemetry,
                subjects: SubjectConfig::new(args.subject_prefix.clone()),
                telemetry,
                warnings: Vec::new(),
                allowed_secrets: clone_string_vec(&args.allowed_secrets),
            },
        )
    }

    /// The production-mode invariant that does not hold of this
    /// configuration, if any: the auth must be a token pair, both halves
    /// must survive trimming, and the secret allow-list must not be empty.
    pub open spec fn broken_invariant(self) -> Option<ConfigFault> {
        if self.mode == Mode::Prod {
            match self.nats.auth {
                NatsAuth::Jwt { jwt, seed } => if trimmed(jwt@).len() == 0 {
                    Some(ConfigFault::EmptyJwt)
                } else if trimmed(seed@).len() == 0 {
                    Some(ConfigFault::EmptySeed)
                } else if self.allowed_secrets@.len() == 0 {
                    Some(ConfigFault::NoAllowedSecrets)
                } else {
                    None
                },
                NatsAuth::Anonymous => Some(ConfigFault::AuthNotToken),
            }
        } else {
            None
        }
    }

    /// Re-checks the production-mode invariants, naming the first one that
    /// does not hold. Development mode always passes.
    pub fn validate(&self) -> (r: Result<(), ConfigError>)
        ensures
            match r {
                Ok(_) => self.broken_invariant() is None,
                Err(e) => {
                    &&& self.broken_invariant() matches Some(f)
                    &&& e@ == ConfigErrorV::InvalidConfig(f)
                },
            },
    {
        if let Mode::Prod = self.mode {
            match &self.nats.auth {
                NatsAuth::Jwt { jwt, seed } => {
                    if trim(jwt.as_str()).unicode_len() == 0 {
                        return Err(ConfigError::InvalidConfig(ConfigFault::EmptyJwt));
                    }
                    if trim(seed.as_str()).unicode_len() == 0 {
                        return Err(ConfigError::InvalidConfig(ConfigFault::EmptySeed));
                    }
                },
                NatsAuth::Anonymous => {
                    return Err(ConfigError::InvalidConfig(ConfigFault::AuthNotToken));
                },
            }
            if self.allowed_secrets.len() == 0 {
                return Err(ConfigError::InvalidConfig(ConfigFault::NoAllowedSecrets));
            }
        }
        Ok(())
    }
}

/// The view of an optional string, for contracts over resolver outcomes.
pub open spec fn opt_text(o: Option<String>) -> Option<Seq<char>> {
    match o {
        Some(s) => Some(s@),
        None => None,
    }
}

/// Production mode without a resolvable auth pair fails; with an explicit
/// transport URL and a resolvable pair it succeeds, and `from_args` then
/// pins the configuration's URL to the flag's value.
pub proof fn lemma_prod_auth_pair(args: CliArgs, env: EnvInputs, secrets: SecretInputs)
    requires
        !args.dev,
    ensures
        (secrets.nats_jwt is None || (secrets.nats_seed is None && secrets.nats_nkey_seed is None))
            && (args.nats_url is Some || secrets.nats_url is Some) ==> prod_failure(
            args,
            env,
            secrets,
        ) is Some,
        args.nats_url is Some && secrets.nats_jwt is Some && (secrets.nats_seed is Some
            || secrets.nats_nkey_seed is Some) && !telemetry_fails(env) ==> prod_failure(
            args,
            env,
            secrets,
        ) is None && (args.nats_url matches Some(u) ==> prod_url(args, secrets) == u@),
{
}

} // verus!
