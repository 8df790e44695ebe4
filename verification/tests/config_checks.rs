use greentic_demo::config::AppConfig;
use greentic_demo::config::CliArgs;
use greentic_demo::config::ConfigError;
use greentic_demo::config::ConfigFault;
use greentic_demo::config::EnvInputs;
use greentic_demo::config::LoggingConfig;
use greentic_demo::config::Mode;
use greentic_demo::config::NatsAuth;
use greentic_demo::config::SecretInputs;
use greentic_demo::config::SubjectConfig;
use greentic_demo::config::TelemetryConfig;
use greentic_demo::config::TelemetryFile;
use greentic_demo::config::TelemetrySource;

fn args(dev: bool, nats_url: Option<&str>, allowed: Vec<&str>) -> CliArgs {
    CliArgs {
        dev,
        packs_dir: "./packs".to_string(),
        nats_url: nats_url.map(|s| s.to_string()),
        subject_prefix: "messaging.activities".to_string(),
        allowed_secrets: allowed.into_iter().map(|s| s.to_string()).collect(),
    }
}

fn empty_env() -> EnvInputs {
    EnvInputs {
        nats_url: None,
        has_nats_jwt: true,
        has_nats_seed: true,
        telemetry_inline: None,
        telemetry_file: None,
    }
}

fn no_secrets() -> SecretInputs {
    SecretInputs {
        nats_url: None,
        nats_jwt: None,
        nats_seed: None,
        nats_nkey_seed: None,
    }
}

fn full_secrets() -> SecretInputs {
    SecretInputs {
        nats_url: Some("nats://secret:4222".to_string()),
        nats_jwt: Some("jwt-token".to_string()),
        nats_seed: Some("seed-value".to_string()),
        nats_nkey_seed: None,
    }
}

#[test]
fn prod_without_auth_pair_fails() {
    let result = AppConfig::from_args(
        &args(false, Some("nats://x:4222"), vec!["s"]),
        &empty_env(),
        &no_secrets(),
    );
    match result {
        Err(ConfigError::MissingSecret(name)) => assert_eq!(name, "NATS_JWT"),
        other => panic!("expected a missing auth secret, got {:?}", other),
    }
}

#[test]
fn prod_flag_url_overrides_secret_url() {
    let config = AppConfig::from_args(
        &args(false, Some("nats://flag:4222"), vec!["s"]),
        &empty_env(),
        &full_secrets(),
    )
    .unwrap();
    assert_eq!(config.mode, Mode::Prod);
    assert_eq!(config.nats.url, "nats://flag:4222");
    match config.nats.auth {
        NatsAuth::Jwt { jwt, seed } => {
            assert_eq!(jwt, "jwt-token");
            assert_eq!(seed, "seed-value");
        }
        NatsAuth::Anonymous => panic!("prod mode must carry token auth"),
    }
}

#[test]
fn prod_seed_uses_fallback_name() {
    let secrets = SecretInputs {
        nats_url: None,
        nats_jwt: Some("jwt".to_string()),
        nats_seed: None,
        nats_nkey_seed: Some("nkey".to_string()),
    };
    let config = AppConfig::from_args(
        &args(false, Some("nats://x:4222"), vec!["s"]),
        &empty_env(),
        &secrets,
    )
    .unwrap();
    match config.nats.auth {
        NatsAuth::Jwt { seed, .. } => assert_eq!(seed, "nkey"),
        NatsAuth::Anonymous => panic!("expected token auth"),
    }
}

#[test]
fn prod_without_any_url_names_the_url_secret() {
    let secrets = SecretInputs {
        nats_url: None,
        nats_jwt: Some("jwt".to_string()),
        nats_seed: Some("seed".to_string()),
        nats_nkey_seed: None,
    };
    match AppConfig::from_args(&args(false, None, vec![]), &empty_env(), &secrets) {
        Err(ConfigError::MissingSecret(name)) => assert_eq!(name, "NATS_URL"),
        other => panic!("expected a missing url, got {:?}", other),
    }
}

#[test]
fn dev_url_falls_back_to_env_then_default() {
    let mut env = empty_env();
    env.nats_url = Some("nats://env:4222".to_string());
    let from_env =
        AppConfig::from_args(&args(true, None, vec![]), &env, &no_secrets()).unwrap();
    assert_eq!(from_env.nats.url, "nats://env:4222");
    let from_default =
        AppConfig::from_args(&args(true, None, vec![]), &empty_env(), &no_secrets()).unwrap();
    assert_eq!(from_default.nats.url, "nats://127.0.0.1:4222");
    assert_eq!(from_default.mode, Mode::Dev);
    assert!(matches!(from_default.nats.auth, NatsAuth::Anonymous));
    assert!(matches!(from_default.logging, LoggingConfig::DevFile { .. }));
}

#[test]
fn dev_missing_auth_env_yields_a_warning() {
    let mut env = empty_env();
    env.has_nats_jwt = false;
    let config = AppConfig::from_args(&args(true, None, vec![]), &env, &no_secrets()).unwrap();
    assert_eq!(config.warnings.len(), 1);
    let quiet = AppConfig::from_args(&args(true, None, vec![]), &empty_env(), &no_secrets())
        .unwrap();
    assert_eq!(quiet.warnings.len(), 0);
}

#[test]
fn inline_telemetry_payload_is_trimmed() {
    let mut env = empty_env();
    env.telemetry_inline = Some("  {\"service_name\":\"demo\"}  ".to_string());
    let config = AppConfig::from_args(&args(true, None, vec![]), &env, &no_secrets()).unwrap();
    match config.telemetry {
        TelemetryConfig::Preconfigured { payload, source } => {
            assert_eq!(payload, "{\"service_name\":\"demo\"}");
            assert!(matches!(source, TelemetrySource::Env));
        }
        TelemetryConfig::Disabled => panic!("expected telemetry to be configured"),
    }
}

#[test]
fn blank_telemetry_payload_disables_telemetry() {
    let mut env = empty_env();
    env.telemetry_inline = Some("   \t\n ".to_string());
    let config = AppConfig::from_args(&args(true, None, vec![]), &env, &no_secrets()).unwrap();
    assert!(matches!(config.telemetry, TelemetryConfig::Disabled));
    assert!(!config.telemetry.is_enabled());
}

#[test]
fn telemetry_file_payload_names_its_source() {
    let mut env = empty_env();
    env.telemetry_file = Some(TelemetryFile {
        path: "/etc/telemetry.json".to_string(),
        contents: Some("{\"sampling\":1}".to_string()),
    });
    let config = AppConfig::from_args(&args(true, None, vec![]), &env, &no_secrets()).unwrap();
    match config.telemetry {
        TelemetryConfig::Preconfigured { payload, source } => {
            assert_eq!(payload, "{\"sampling\":1}");
            match source {
                TelemetrySource::File(path) => {
                    assert_eq!(path, "/etc/telemetry.json");
                    assert_eq!(source_tag(&TelemetrySource::File(path)), "file");
                }
                TelemetrySource::Env => panic!("expected the file source"),
            }
        }
        TelemetryConfig::Disabled => panic!("expected telemetry to be configured"),
    }
}

fn source_tag(source: &TelemetrySource) -> &'static str {
    source.as_str()
}

#[test]
fn unreadable_telemetry_file_fails_prod_but_warns_dev() {
    let mut env = empty_env();
    env.telemetry_file = Some(TelemetryFile {
        path: "/missing.json".to_string(),
        contents: None,
    });
    match AppConfig::from_args(
        &args(false, Some("nats://x:4222"), vec!["s"]),
        &env,
        &full_secrets(),
    ) {
        Err(ConfigError::TelemetryUnreadable(path)) => assert_eq!(path, "/missing.json"),
        other => panic!("expected an unreadable telemetry file, got {:?}", other),
    }
    let dev = AppConfig::from_args(&args(true, None, vec![]), &env, &no_secrets()).unwrap();
    assert!(matches!(dev.telemetry, TelemetryConfig::Disabled));
    assert_eq!(dev.warnings.len(), 1);
}

#[test]
fn validate_rejects_blank_auth_material() {
    let mut config = AppConfig::from_args(
        &args(false, Some("nats://x:4222"), vec!["s"]),
        &empty_env(),
        &full_secrets(),
    )
    .unwrap();
    assert!(config.validate().is_ok());
    config.nats.auth = NatsAuth::Jwt {
        jwt: "   ".to_string(),
        seed: "seed".to_string(),
    };
    match config.validate() {
        Err(ConfigError::InvalidConfig(fault)) => assert_eq!(fault, ConfigFault::EmptyJwt),
        other => panic!("expected an empty jwt fault, got {:?}", other),
    }
}

#[test]
fn validate_requires_allowed_secrets_in_prod() {
    let mut config = AppConfig::from_args(
        &args(false, Some("nats://x:4222"), vec!["s"]),
        &empty_env(),
        &full_secrets(),
    )
    .unwrap();
    config.allowed_secrets.clear();
    match config.validate() {
        Err(ConfigError::InvalidConfig(fault)) => {
            assert_eq!(fault, ConfigFault::NoAllowedSecrets)
        }
        other => panic!("expected a missing allow-list fault, got {:?}", other),
    }
    config.nats.auth = NatsAuth::Anonymous;
    match config.validate() {
        Err(ConfigError::InvalidConfig(fault)) => assert_eq!(fault, ConfigFault::AuthNotToken),
        other => panic!("expected an auth fault, got {:?}", other),
    }
}

#[test]
fn dev_mode_always_validates() {
    let config =
        AppConfig::from_args(&args(true, None, vec![]), &empty_env(), &no_secrets()).unwrap();
    assert!(config.validate().is_ok());
}

#[test]
fn subjects_follow_the_wire_contract() {
    let subjects = SubjectConfig::new("messaging.activities".to_string());
    assert_eq!(
        subjects.ingress_subject("customera"),
        "messaging.activities.in.customera"
    );
    assert_eq!(
        subjects.egress_subject("customera"),
        "messaging.activities.out.customera"
    );
}
