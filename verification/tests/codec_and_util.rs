use greentic_demo::codec::activity_from_value;
use greentic_demo::codec::activity_to_value;
use greentic_demo::json::JsonValue;
use greentic_demo::json::json_text;
use greentic_demo::shim::RunnerConfig;
use greentic_demo::shim::ShimEnv;
use greentic_demo::shim::ShimError;
use greentic_demo::shim::parse_duration_string;
use greentic_demo::strutil::parse_u16;
use greentic_demo::strutil::parse_u64;
use greentic_demo::strutil::trim;
use greentic_demo::telemetry::backoff_delay_ms;
use greentic_demo::types::Activity;
use greentic_demo::types::ActivityType;
use greentic_demo::worker::BridgeEvent;
use greentic_demo::worker::BridgePhase;
use greentic_demo::worker::BridgeVerdict;
use greentic_demo::worker::MessageAction;
use greentic_demo::worker::MessageEvent;
use greentic_demo::worker::bridge_step;
use greentic_demo::worker::message_reaction;

fn text(s: &str) -> JsonValue {
    JsonValue::Text(s.to_string())
}

fn object(pairs: Vec<(&str, JsonValue)>) -> JsonValue {
    JsonValue::Object(pairs.into_iter().map(|(k, v)| (k.to_string(), v)).collect())
}

#[test]
fn activity_type_round_trips_through_its_text() {
    let cases = vec![
        ActivityType::Message,
        ActivityType::Event,
        ActivityType::Invoke,
        ActivityType::Typing,
        ActivityType::Unknown("frobnicate".to_string()),
    ];
    for case in cases {
        let rendered = case.as_str().to_string();
        assert_eq!(ActivityType::from_text(&rendered), case);
    }
    assert_eq!(ActivityType::Unknown("frobnicate".to_string()).as_str(), "frobnicate");
}

#[test]
fn wire_decode_requires_a_type_field() {
    let missing = object(vec![("text", text("hi"))]);
    assert!(activity_from_value(&missing).is_err());
    let not_an_object = text("hi");
    assert!(activity_from_value(&not_an_object).is_err());
}

#[test]
fn wire_round_trip_keeps_the_fields() {
    let payload = object(vec![
        ("type", text("event")),
        ("id", text("m-1")),
        ("text", text("hello")),
        ("from", object(vec![("id", text("user")), ("name", text("U"))])),
        ("channelData", object(vec![("tenant", text("customera"))])),
        ("entities", JsonValue::Array(vec![text("e1")])),
    ]);
    let activity = activity_from_value(&payload).unwrap();
    assert_eq!(activity.activity_type, ActivityType::Event);
    assert_eq!(activity.id.as_deref(), Some("m-1"));
    assert_eq!(activity.text.as_deref(), Some("hello"));
    assert_eq!(activity.from.as_ref().unwrap().id.as_deref(), Some("user"));
    assert_eq!(activity.entities.len(), 1);
    let reencoded = activity_to_value(&activity);
    let reparsed = activity_from_value(&reencoded).unwrap();
    assert_eq!(reparsed.id.as_deref(), Some("m-1"));
    assert_eq!(reparsed.text.as_deref(), Some("hello"));
    assert_eq!(reparsed.activity_type, ActivityType::Event);
}

#[test]
fn unknown_wire_type_is_preserved_verbatim() {
    let payload = object(vec![("type", text("frobnicate"))]);
    let activity = activity_from_value(&payload).unwrap();
    assert_eq!(
        activity.activity_type,
        ActivityType::Unknown("frobnicate".to_string())
    );
    let reencoded = activity_to_value(&activity);
    let reparsed = activity_from_value(&reencoded).unwrap();
    assert_eq!(reparsed.activity_type, ActivityType::Unknown("frobnicate".to_string()));
}

#[test]
fn null_optional_fields_read_as_absent() {
    let payload = object(vec![
        ("type", text("message")),
        ("id", JsonValue::Null),
        ("channelData", JsonValue::Null),
    ]);
    let activity = activity_from_value(&payload).unwrap();
    assert_eq!(activity.id, None);
    assert_eq!(activity.channel_data, None);
}

#[test]
fn rendered_text_is_compact_and_escaped() {
    let value = object(vec![
        ("a", JsonValue::Number("1".to_string())),
        (
            "b",
            JsonValue::Array(vec![
                JsonValue::Bool(true),
                JsonValue::Null,
                text("x\"y\n"),
            ]),
        ),
    ]);
    assert_eq!(json_text(&value), "{\"a\":1,\"b\":[true,null,\"x\\\"y\\n\"]}");
}

#[test]
fn encoded_activity_spells_out_every_field() {
    let activity = Activity::default();
    let encoded = activity_to_value(&activity);
    match &encoded {
        JsonValue::Object(pairs) => {
            assert_eq!(pairs.len(), 15);
            assert_eq!(pairs[0].0, "type");
            assert_eq!(pairs[0].1, text("message"));
            assert_eq!(pairs[1].0, "id");
            assert_eq!(pairs[1].1, JsonValue::Null);
            assert_eq!(pairs[14].0, "entities");
        }
        other => panic!("expected an object, got {:?}", other),
    }
}

#[test]
fn decimal_parsing_matches_the_standard_grammar() {
    assert_eq!(parse_u64("42"), Some(42));
    assert_eq!(parse_u64("+7"), Some(7));
    assert_eq!(parse_u64(""), None);
    assert_eq!(parse_u64("4 2"), None);
    assert_eq!(parse_u64("-1"), None);
    assert_eq!(parse_u64("18446744073709551615"), Some(u64::MAX));
    assert_eq!(parse_u64("18446744073709551616"), None);
    assert_eq!(parse_u16("8080"), Some(8080));
    assert_eq!(parse_u16("70000"), None);
}

#[test]
fn trimming_removes_surrounding_whitespace() {
    assert_eq!(trim("  x y  "), "x y");
    assert_eq!(trim(" \t\n "), "");
    assert_eq!(trim("plain"), "plain");
    assert_eq!(trim("\u{2009}wide\u{3000}"), "wide");
}

#[test]
fn control_characters_render_as_unicode_escapes() {
    let value = text("a\u{1}b\u{8}");
    assert_eq!(json_text(&value), "\"a\\u0001b\\b\"");
    assert_eq!(json_text(&text("back\\slash")), "\"back\\\\slash\"");
}

#[test]
fn duration_strings_accept_a_seconds_suffix() {
    assert_eq!(parse_duration_string("90"), Some(90));
    assert_eq!(parse_duration_string(" 12s "), Some(12));
    assert_eq!(parse_duration_string("5S"), Some(5));
    assert_eq!(parse_duration_string("12 s"), Some(12));
    assert_eq!(parse_duration_string("abc"), None);
    assert_eq!(parse_duration_string("s"), None);
}

fn shim_env() -> ShimEnv {
    ShimEnv {
        port: None,
        secrets_backend: None,
        pack_source: None,
        pack_index_url: None,
        pack_cache_dir: None,
        pack_public_key: None,
        refresh_interval: None,
        refresh_interval_secs: None,
        tenant_resolver: None,
    }
}

#[test]
fn shim_config_requires_bindings() {
    match RunnerConfig::from_env(Vec::new(), &shim_env()) {
        Err(error) => assert_eq!(error, ShimError::NoBindings),
        Ok(_) => panic!("an empty bindings list must be refused"),
    }
}

#[test]
fn shim_config_fills_defaults() {
    let config =
        RunnerConfig::from_env(vec!["./packs/a/bindings.yaml".to_string()], &shim_env())
            .unwrap();
    assert_eq!(config.port, 8080);
    assert_eq!(config.secrets_backend, "env");
    assert_eq!(config.pack_source, "fs");
    assert_eq!(config.pack_index_url, "./examples/index.json");
    assert_eq!(config.pack_cache_dir, ".packs");
    assert_eq!(config.pack_refresh_interval_secs, 30);
    assert_eq!(config.pack_public_key, None);
}

#[test]
fn shim_config_reads_the_environment() {
    let mut env = shim_env();
    env.port = Some("9000".to_string());
    env.refresh_interval = Some("45s".to_string());
    env.secrets_backend = Some("vault".to_string());
    let config =
        RunnerConfig::from_env(vec!["./b.yaml".to_string()], &env).unwrap();
    assert_eq!(config.port, 9000);
    assert_eq!(config.pack_refresh_interval_secs, 45);
    assert_eq!(config.secrets_backend, "vault");
    let mut bad_port = shim_env();
    bad_port.port = Some("not-a-port".to_string());
    bad_port.refresh_interval = Some("oops".to_string());
    bad_port.refresh_interval_secs = Some("75".to_string());
    let fallback = RunnerConfig::from_env(vec!["./b.yaml".to_string()], &bad_port).unwrap();
    assert_eq!(fallback.port, 8080);
    assert_eq!(fallback.pack_refresh_interval_secs, 75);
}

#[test]
fn backoff_grows_and_stays_within_its_jitter_band() {
    let delay = backoff_delay_ms(100, 3);
    assert!((800..=1600).contains(&delay));
    let capped = backoff_delay_ms(100, 40);
    assert!((102_400..=103_400).contains(&capped));
    assert_eq!(backoff_delay_ms(0, 5), 0);
}

#[test]
fn bridge_phases_follow_the_life_cycle() {
    assert_eq!(
        bridge_step(BridgePhase::Connecting, BridgeEvent::Connected),
        (BridgePhase::Running, BridgeVerdict::Proceed)
    );
    assert_eq!(
        bridge_step(BridgePhase::Connecting, BridgeEvent::ConnectFailed),
        (BridgePhase::Stopped, BridgeVerdict::Fatal)
    );
    assert_eq!(
        bridge_step(BridgePhase::Running, BridgeEvent::Shutdown),
        (BridgePhase::Draining, BridgeVerdict::Proceed)
    );
    assert_eq!(
        bridge_step(BridgePhase::Running, BridgeEvent::WorkerFailed),
        (BridgePhase::Draining, BridgeVerdict::Fatal)
    );
    assert_eq!(
        bridge_step(BridgePhase::Running, BridgeEvent::WorkerCompleted),
        (BridgePhase::Running, BridgeVerdict::Proceed)
    );
    assert_eq!(
        bridge_step(BridgePhase::Draining, BridgeEvent::Drained),
        (BridgePhase::Stopped, BridgeVerdict::Proceed)
    );
}

#[test]
fn only_publish_failures_end_a_worker() {
    assert_eq!(
        message_reaction(MessageEvent::DecodeFailed),
        MessageAction::RecordFailureAndContinue
    );
    assert_eq!(
        message_reaction(MessageEvent::EngineFailed),
        MessageAction::RecordFailureAndContinue
    );
    assert_eq!(
        message_reaction(MessageEvent::PublishFailed),
        MessageAction::AbortWorker
    );
    assert_eq!(message_reaction(MessageEvent::Delivered), MessageAction::Continue);
}
