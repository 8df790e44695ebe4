use greentic_demo::json::JsonValue;
use greentic_demo::runner_bridge::coerce_activity;
use greentic_demo::runner_bridge::flow_value_to_activities;
use greentic_demo::runner_bridge::resolve_flow_hint;
use greentic_demo::runner_bridge::resolve_node_hint;
use greentic_demo::types::Activity;
use greentic_demo::types::ActivityType;
use greentic_demo::types::ChannelAccount;
use greentic_demo::types::ConversationAccount;

fn text(s: &str) -> JsonValue {
    JsonValue::Text(s.to_string())
}

fn object(pairs: Vec<(&str, JsonValue)>) -> JsonValue {
    JsonValue::Object(pairs.into_iter().map(|(k, v)| (k.to_string(), v)).collect())
}

fn get_key(value: &JsonValue, key: &str) -> Option<JsonValue> {
    match value {
        JsonValue::Object(pairs) => pairs
            .iter()
            .find(|(k, _)| k == key)
            .map(|(_, v)| v.clone()),
        _ => None,
    }
}

fn base_activity() -> Activity {
    let mut activity = Activity::default();
    activity.id = Some("abc".to_string());
    activity.conversation = Some(ConversationAccount {
        id: Some("conversation".to_string()),
        name: None,
    });
    activity.from = Some(ChannelAccount {
        id: Some("user".to_string()),
        name: None,
    });
    activity.recipient = Some(ChannelAccount {
        id: Some("bot".to_string()),
        name: None,
    });
    activity.channel_data = Some(object(vec![
        ("traceId", text("trace-123")),
        ("tenant", text("customera")),
    ]));
    activity
}

#[test]
fn default_text_activity_mapping() {
    let incoming = base_activity();
    let result = coerce_activity(&incoming, "customera", text("hi")).unwrap();
    assert_eq!(result.text.as_deref(), Some("hi"));
    assert_eq!(result.activity_type, ActivityType::Message);
    assert_eq!(
        result.conversation.unwrap().id.as_deref(),
        Some("conversation")
    );
}

#[test]
fn preserves_custom_activity_fields() {
    let incoming = base_activity();
    let outgoing = object(vec![
        ("type", text("message")),
        ("text", text("pong")),
        (
            "channelData",
            object(vec![("tenant", text("customera")), ("foo", text("bar"))]),
        ),
    ]);
    let mapped = coerce_activity(&incoming, "customera", outgoing).unwrap();
    assert_eq!(mapped.text.as_deref(), Some("pong"));
    let channel_data = mapped.channel_data.unwrap();
    assert_eq!(get_key(&channel_data, "traceId"), Some(text("trace-123")));
}

#[test]
fn array_payload_maps_to_multiple_activities() {
    let incoming = base_activity();
    let payload = JsonValue::Array(vec![
        text("one"),
        object(vec![("text", text("two"))]),
    ]);
    let responses = flow_value_to_activities(&incoming, "customera", payload).unwrap();
    assert_eq!(responses.len(), 2);
    assert_eq!(responses[0].text.as_deref(), Some("one"));
    assert_eq!(responses[1].text.as_deref(), Some("two"));
}

#[test]
fn flow_hint_detected_from_channel_data() {
    let mut activity = base_activity();
    activity.channel_data = Some(object(vec![("flowId", text("weather_bot"))]));
    assert_eq!(resolve_flow_hint(&activity).as_deref(), Some("weather_bot"));
}

#[test]
fn node_hint_detected_from_session() {
    let mut activity = base_activity();
    activity.channel_data = Some(object(vec![(
        "session",
        object(vec![("node", text("qa_node"))]),
    )]));
    assert_eq!(resolve_node_hint(&activity).as_deref(), Some("qa_node"));
}

#[test]
fn null_payload_maps_to_empty_message() {
    let incoming = base_activity();
    let result = coerce_activity(&incoming, "customera", JsonValue::Null).unwrap();
    assert_eq!(result.text, None);
    assert_eq!(result.activity_type, ActivityType::Message);
    assert_eq!(result.reply_to_id.as_deref(), Some("abc"));
}

#[test]
fn scalar_payloads_map_to_textual_messages() {
    let incoming = base_activity();
    let from_bool = coerce_activity(&incoming, "customera", JsonValue::Bool(true)).unwrap();
    assert_eq!(from_bool.text.as_deref(), Some("true"));
    let from_number =
        coerce_activity(&incoming, "customera", JsonValue::Number("3.5".to_string())).unwrap();
    assert_eq!(from_number.text.as_deref(), Some("3.5"));
}

#[test]
fn reply_fields_swap_sender_and_recipient() {
    let incoming = base_activity();
    let result = coerce_activity(&incoming, "customera", text("hello")).unwrap();
    assert_eq!(result.from.unwrap().id.as_deref(), Some("bot"));
    assert_eq!(result.recipient.unwrap().id.as_deref(), Some("user"));
}

#[test]
fn missing_id_is_assigned_a_fresh_identifier() {
    let incoming = base_activity();
    let result = coerce_activity(&incoming, "customera", text("hi")).unwrap();
    let id = result.id.unwrap();
    assert_eq!(id.chars().count(), 36);
}

#[test]
fn unparseable_object_degrades_to_text_message() {
    let incoming = base_activity();
    // `text` must be a string; a number there refuses the activity shape
    // and the whole object (with its defaulted type) becomes the text.
    let outgoing = object(vec![("text", JsonValue::Number("5".to_string()))]);
    let mapped = coerce_activity(&incoming, "customera", outgoing).unwrap();
    assert_eq!(
        mapped.text.as_deref(),
        Some("{\"text\":5,\"type\":\"message\"}")
    );
}

#[test]
fn unknown_type_coerces_to_message() {
    let incoming = base_activity();
    let outgoing = object(vec![("type", text("frobnicate")), ("text", text("x"))]);
    let mapped = coerce_activity(&incoming, "customera", outgoing).unwrap();
    assert_eq!(mapped.activity_type, ActivityType::Message);
}

#[test]
fn non_object_channel_data_is_kept() {
    let mut incoming = Activity::default();
    incoming.id = Some("ref".to_string());
    let outgoing = object(vec![
        ("type", text("message")),
        ("channelData", JsonValue::Number("5".to_string())),
    ]);
    let mapped = coerce_activity(&incoming, "customera", outgoing).unwrap();
    assert_eq!(mapped.channel_data, Some(JsonValue::Number("5".to_string())));
}

#[test]
fn own_trace_id_survives_normalization() {
    let incoming = base_activity();
    let outgoing = object(vec![
        ("type", text("message")),
        ("text", text("pong")),
        (
            "channelData",
            object(vec![("tenant", text("customera")), ("traceId", text("own-42"))]),
        ),
    ]);
    let mapped = coerce_activity(&incoming, "customera", outgoing).unwrap();
    let channel_data = mapped.channel_data.unwrap();
    assert_eq!(get_key(&channel_data, "traceId"), Some(text("own-42")));
}

#[test]
fn snake_case_own_trace_id_also_survives() {
    let incoming = base_activity();
    let outgoing = object(vec![
        ("type", text("message")),
        (
            "channelData",
            object(vec![("trace_id", text("own-snake"))]),
        ),
    ]);
    let mapped = coerce_activity(&incoming, "customera", outgoing).unwrap();
    let channel_data = mapped.channel_data.unwrap();
    // The metadata is kept exactly as the activity brought it: no camel-case
    // key is added beside the snake-case one.
    assert_eq!(get_key(&channel_data, "trace_id"), Some(text("own-snake")));
    assert_eq!(get_key(&channel_data, "traceId"), None);
}

#[test]
fn missing_channel_data_is_seeded_with_tenant_and_trace() {
    let incoming = base_activity();
    let mapped = coerce_activity(&incoming, "customera", text("hi")).unwrap();
    let channel_data = mapped.channel_data.unwrap();
    assert_eq!(get_key(&channel_data, "tenant"), Some(text("customera")));
    assert_eq!(get_key(&channel_data, "traceId"), Some(text("trace-123")));
}

#[test]
fn trace_id_falls_back_to_conversation_id() {
    let mut incoming = base_activity();
    incoming.channel_data = None;
    let mapped = coerce_activity(&incoming, "customera", text("hi")).unwrap();
    let channel_data = mapped.channel_data.unwrap();
    assert_eq!(get_key(&channel_data, "traceId"), Some(text("conversation")));
}

#[test]
fn session_flow_hint_prefers_bare_flow_key() {
    let mut activity = base_activity();
    activity.channel_data = Some(object(vec![(
        "session",
        object(vec![("flowId", text("second")), ("flow", text("first"))]),
    )]));
    assert_eq!(resolve_flow_hint(&activity).as_deref(), Some("first"));
}

#[test]
fn nested_array_payload_degrades_to_rendered_text() {
    let incoming = base_activity();
    let payload = JsonValue::Array(vec![JsonValue::Array(vec![text("x"), JsonValue::Null])]);
    let responses = flow_value_to_activities(&incoming, "customera", payload).unwrap();
    assert_eq!(responses.len(), 1);
    assert_eq!(responses[0].text.as_deref(), Some("[\"x\",null]"));
}

#[test]
fn trace_id_prefers_camel_case_then_snake_case() {
    let mut activity = base_activity();
    activity.channel_data = Some(object(vec![("trace_id", text("snake"))]));
    assert_eq!(activity.tenant_trace_id().as_deref(), Some("snake"));
    activity.channel_data = Some(object(vec![
        ("trace_id", text("snake")),
        ("traceId", text("camel")),
    ]));
    assert_eq!(activity.tenant_trace_id().as_deref(), Some("camel"));
}

#[test]
fn own_channel_keys_win_over_session_keys() {
    let mut activity = base_activity();
    activity.channel_data = Some(object(vec![
        ("flowId", text("own")),
        ("session", object(vec![("flow", text("nested"))])),
    ]));
    assert_eq!(resolve_flow_hint(&activity).as_deref(), Some("own"));
}
