use greentic_demo::config::Mode;
use greentic_demo::health::HealthMonitor;
use greentic_demo::health::TenantHealth;
use greentic_demo::json::JsonValue;
use greentic_demo::loader::PackDirEntry;
use greentic_demo::loader::SkipEvent;
use greentic_demo::loader::TenantPack;
use greentic_demo::loader::discover_bindings;
use greentic_demo::loader::load_packs;
use greentic_demo::runner_bridge::BridgeError;
use greentic_demo::runner_bridge::EngineDescription;
use greentic_demo::runner_bridge::FlowInfo;
use greentic_demo::runner_bridge::RunnerBridge;
use greentic_demo::runner_bridge::ensure_allowed_secrets;
use greentic_demo::types::Activity;

fn strings(items: Vec<&str>) -> Vec<String> {
    items.into_iter().map(|s| s.to_string()).collect()
}

fn entry(name: Option<&str>, is_dir: bool, index: bool, yaml: bool, yml: bool) -> PackDirEntry {
    PackDirEntry {
        name: name.map(|s| s.to_string()),
        is_dir,
        has_index: index,
        has_bindings_yaml: yaml,
        has_bindings_yml: yml,
    }
}

#[test]
fn scan_keeps_valid_tenants_and_reports_the_rest() {
    let entries = vec![
        entry(Some("alpha"), true, true, true, false),
        entry(Some("beta"), true, false, true, false),
        entry(Some("gamma"), true, true, false, true),
        entry(Some("delta"), true, true, false, false),
        entry(None, true, true, true, false),
        entry(Some("notes.txt"), false, false, false, false),
    ];
    let outcome = load_packs("./packs", &entries);
    assert_eq!(outcome.packs.len(), 2);
    assert_eq!(outcome.skipped.len(), 3);
    assert_eq!(outcome.packs[0].tenant, "alpha");
    assert_eq!(outcome.packs[0].index_path, "./packs/alpha/index.ygtc");
    assert_eq!(outcome.packs[0].bindings_path, "./packs/alpha/bindings.yaml");
    assert_eq!(outcome.packs[1].tenant, "gamma");
    assert_eq!(outcome.packs[1].bindings_path, "./packs/gamma/bindings.yml");
    assert!(matches!(&outcome.skipped[0], SkipEvent::MissingIndex(t) if t == "beta"));
    assert!(matches!(&outcome.skipped[1], SkipEvent::MissingBindings(t) if t == "delta"));
    assert!(matches!(&outcome.skipped[2], SkipEvent::UnnamedEntry));
}

#[test]
fn empty_scan_is_not_an_error() {
    let outcome = load_packs("./packs", &Vec::new());
    assert_eq!(outcome.packs.len(), 0);
    assert_eq!(outcome.skipped.len(), 0);
}

#[test]
fn bindings_discovery_prefers_yaml() {
    assert_eq!(
        discover_bindings("./packs/a", true, true).as_deref(),
        Some("./packs/a/bindings.yaml")
    );
    assert_eq!(
        discover_bindings("./packs/a", false, true).as_deref(),
        Some("./packs/a/bindings.yml")
    );
    assert_eq!(discover_bindings("./packs/a", false, false), None);
}

fn pack(tenant: &str) -> TenantPack {
    TenantPack {
        tenant: tenant.to_string(),
        index_path: format!("./packs/{}/index.ygtc", tenant),
        bindings_path: format!("./packs/{}/bindings.yaml", tenant),
    }
}

fn engine(flows: Vec<(&str, &str)>, secrets: Option<Vec<&str>>) -> EngineDescription {
    EngineDescription {
        flows: flows
            .into_iter()
            .map(|(id, tag)| FlowInfo {
                id: id.to_string(),
                type_tag: tag.to_string(),
            })
            .collect(),
        messaging_secrets: secrets.map(strings),
    }
}

#[test]
fn register_pack_rejects_undeclared_secrets() {
    let mut bridge = RunnerBridge::new(Mode::Prod, strings(vec!["api_key"]));
    let result = bridge.register_pack(
        &pack("customera"),
        &engine(vec![("greet", "messaging")], Some(vec!["other_secret"])),
    );
    match result {
        Err(BridgeError::SecretNotAllowed(name)) => assert_eq!(name, "api_key"),
        other => panic!("expected the secret gate to fail, got {:?}", other),
    }
}

#[test]
fn register_pack_accepts_declared_secrets() {
    let mut bridge = RunnerBridge::new(Mode::Prod, strings(vec!["api_key"]));
    let result = bridge.register_pack(
        &pack("customera"),
        &engine(
            vec![("greet", "messaging")],
            Some(vec!["api_key", "extra_secret"]),
        ),
    );
    assert!(result.is_ok());
}

#[test]
fn register_pack_needs_a_messaging_binding_when_gated() {
    let mut bridge = RunnerBridge::new(Mode::Prod, strings(vec!["api_key"]));
    let result = bridge.register_pack(&pack("customera"), &engine(vec![("greet", "messaging")], None));
    assert!(matches!(result, Err(BridgeError::MissingMessagingBinding)));
}

#[test]
fn empty_allow_list_skips_the_secret_gate() {
    assert!(ensure_allowed_secrets(&None, &Vec::new()).is_ok());
    let mut bridge = RunnerBridge::new(Mode::Dev, Vec::new());
    assert!(bridge
        .register_pack(&pack("customera"), &engine(vec![("greet", "messaging")], None))
        .is_ok());
}

#[test]
fn register_pack_requires_a_messaging_flow() {
    let mut bridge = RunnerBridge::new(Mode::Dev, Vec::new());
    let result =
        bridge.register_pack(&pack("customera"), &engine(vec![("greet", "webhook")], None));
    match result {
        Err(BridgeError::NoMessagingFlow(tenant)) => assert_eq!(tenant, "customera"),
        other => panic!("expected a missing messaging flow, got {:?}", other),
    }
}

#[test]
fn reregistration_replaces_the_entry() {
    let mut bridge = RunnerBridge::new(Mode::Dev, Vec::new());
    bridge
        .register_pack(&pack("customera"), &engine(vec![("old", "messaging")], None))
        .unwrap();
    bridge
        .register_pack(&pack("customera"), &engine(vec![("new", "messaging")], None))
        .unwrap();
    assert_eq!(bridge.tenants.len(), 1);
    assert_eq!(bridge.tenants[0].messaging_flow_id, "new");
}

#[test]
fn handle_activity_requires_registration() {
    let bridge = RunnerBridge::new(Mode::Dev, Vec::new());
    let result = bridge.handle_activity(
        "ghost",
        &Activity::default(),
        Ok(JsonValue::Text("hi".to_string())),
    );
    match result {
        Err(BridgeError::TenantNotRegistered(tenant)) => assert_eq!(tenant, "ghost"),
        other => panic!("expected an unregistered tenant, got {:?}", other),
    }
}

#[test]
fn handle_activity_propagates_engine_failure() {
    let mut bridge = RunnerBridge::new(Mode::Dev, Vec::new());
    bridge
        .register_pack(&pack("customera"), &engine(vec![("greet", "messaging")], None))
        .unwrap();
    let result = bridge.handle_activity(
        "customera",
        &Activity::default(),
        Err("engine blew up".to_string()),
    );
    match result {
        Err(BridgeError::ExecutionFailed(message)) => assert_eq!(message, "engine blew up"),
        other => panic!("expected an execution failure, got {:?}", other),
    }
}

#[test]
fn handle_activity_coerces_engine_output() {
    let mut bridge = RunnerBridge::new(Mode::Dev, Vec::new());
    bridge
        .register_pack(&pack("customera"), &engine(vec![("greet", "messaging")], None))
        .unwrap();
    let mut reference = Activity::default();
    reference.id = Some("in-1".to_string());
    let responses = bridge
        .handle_activity(
            "customera",
            &reference,
            Ok(JsonValue::Text("pong".to_string())),
        )
        .unwrap();
    assert_eq!(responses.len(), 1);
    assert_eq!(responses[0].text.as_deref(), Some("pong"));
    assert_eq!(responses[0].reply_to_id.as_deref(), Some("in-1"));
}

#[test]
fn plan_dispatch_honours_known_flow_hints() {
    let mut bridge = RunnerBridge::new(Mode::Dev, Vec::new());
    bridge
        .register_pack(
            &pack("customera"),
            &engine(vec![("greet", "messaging"), ("weather_bot", "other")], None),
        )
        .unwrap();
    let mut activity = Activity::default();
    activity.channel_data = Some(JsonValue::Object(vec![(
        "flowId".to_string(),
        JsonValue::Text("weather_bot".to_string()),
    )]));
    let plan = bridge.plan_dispatch("customera", &activity).unwrap();
    assert_eq!(plan.flow_id, "weather_bot");
    assert_eq!(plan.node_id, None);
}

#[test]
fn plan_dispatch_defaults_unknown_flow_hints() {
    let mut bridge = RunnerBridge::new(Mode::Dev, Vec::new());
    bridge
        .register_pack(&pack("customera"), &engine(vec![("greet", "messaging")], None))
        .unwrap();
    let mut activity = Activity::default();
    activity.channel_data = Some(JsonValue::Object(vec![(
        "flowId".to_string(),
        JsonValue::Text("garbled".to_string()),
    )]));
    let plan = bridge.plan_dispatch("customera", &activity).unwrap();
    assert_eq!(plan.flow_id, "greet");
    match &plan.input {
        JsonValue::Object(pairs) => assert_eq!(pairs[0].0, "activity"),
        other => panic!("expected an object input, got {:?}", other),
    }
}

#[test]
fn session_tenant_hint_never_changes_routing() {
    let mut bridge = RunnerBridge::new(Mode::Dev, Vec::new());
    bridge
        .register_pack(&pack("customera"), &engine(vec![("greet", "messaging")], None))
        .unwrap();
    let mut activity = Activity::default();
    activity.channel_data = Some(JsonValue::Object(vec![(
        "session".to_string(),
        JsonValue::Object(vec![(
            "tenant".to_string(),
            JsonValue::Text("someone-else".to_string()),
        )]),
    )]));
    let plan = bridge.plan_dispatch("customera", &activity).unwrap();
    assert_eq!(plan.flow_id, "greet");
}

#[test]
fn dispatch_input_carries_the_denormalized_envelope() {
    let mut bridge = RunnerBridge::new(Mode::Dev, Vec::new());
    bridge
        .register_pack(&pack("customera"), &engine(vec![("greet", "messaging")], None))
        .unwrap();
    let mut activity = Activity::default();
    activity.text = Some("hello".to_string());
    let plan = bridge.plan_dispatch("customera", &activity).unwrap();
    match &plan.input {
        JsonValue::Object(pairs) => {
            let keys: Vec<&str> = pairs.iter().map(|(k, _)| k.as_str()).collect();
            assert_eq!(
                keys,
                vec![
                    "activity",
                    "type",
                    "text",
                    "value",
                    "attachments",
                    "channelData",
                    "conversation",
                    "from",
                    "recipient",
                    "entities"
                ]
            );
            assert_eq!(pairs[2].1, JsonValue::Text("hello".to_string()));
        }
        other => panic!("expected an object input, got {:?}", other),
    }
}

#[test]
fn health_counters_saturate_upward() {
    let mut monitor = HealthMonitor::new(1000);
    monitor.record_ingress("customera");
    monitor.record_ingress("customera");
    monitor.record_egress("customera");
    monitor.record_failure("customerb");
    let snapshot = monitor.snapshot();
    assert_eq!(snapshot.len(), 2);
    assert_eq!(snapshot[0].0, "customera");
    assert_eq!(snapshot[0].1.ingress_count, 2);
    assert_eq!(snapshot[0].1.egress_count, 1);
    assert_eq!(snapshot[0].1.error_count, 0);
    assert!(snapshot[0].1.last_ingress.is_some());
    assert_eq!(snapshot[1].0, "customerb");
    assert_eq!(snapshot[1].1.error_count, 1);
    assert_eq!(snapshot[1].1.last_ingress, None);
}

#[test]
fn counters_saturate_at_the_largest_value() {
    let mut monitor = HealthMonitor {
        entries: vec![(
            "customera".to_string(),
            TenantHealth {
                last_ingress: None,
                last_egress: None,
                ingress_count: u64::MAX,
                egress_count: 0,
                error_count: 0,
            },
        )],
        interval_ms: 10_000,
    };
    monitor.record_ingress("customera");
    let snapshot = monitor.snapshot();
    assert_eq!(snapshot[0].1.ingress_count, u64::MAX);
    assert!(snapshot[0].1.last_ingress.is_some());
}

#[test]
fn reporter_interval_is_floored_at_five_seconds() {
    assert_eq!(HealthMonitor::new(1000).effective_interval_ms(), 5000);
    assert_eq!(HealthMonitor::new(9000).effective_interval_ms(), 9000);
}
