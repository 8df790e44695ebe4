//! The tenant runtime registry and activity translation: registering packs
//! against an engine's declared flows, selecting a flow and node for an
//! inbound activity, shaping the engine's input, and coercing its output
//! back into outbound activities.
//!
//! The engine itself is an external service; the embedder loads it, runs it,
//! and hands its declared shape (`EngineDescription`) and its output back in
//! as plain values. Every decision on those values is verified here.

use vstd::prelude::*;
use crate::config::Mode;
use crate::json::JsonValue;
use crate::json::JsonValueV;
use crate::json::json_pair_views;
use crate::json::obj_lookup;
use crate::json::obj_lookup_str;
use crate::loader::TenantPack;
use crate::codec::account_value;
use crate::codec::activity_from_value;
use crate::codec::activity_to_value;
use crate::codec::attachments_value;
use crate::codec::conversation_value;
use crate::codec::decode_activity;
use crate::codec::encode_account;
use crate::codec::encode_activity;
use crate::codec::encode_attachments;
use crate::codec::encode_conversation;
use crate::codec::encode_opt_str;
use crate::codec::encode_opt_value;
use crate::codec::opt_str_value;
use crate::json::clone_json;
use crate::json::clone_json_list;
use crate::json::json_text;
use crate::json::json_views;
use crate::json::lemma_json_pair_views;
use crate::json::lemma_json_views;
use crate::json::obj_update;
use crate::json::text_of;
use crate::strutil::str_eq;
use crate::strutil::string_views;
use crate::types::Activity;
use crate::types::ActivityType;
use crate::types::ActivityTypeV;
use crate::types::ActivityV;
use crate::types::ConversationAccount;
use crate::types::clone_opt_string;
use crate::types::empty_activity;
use crate::types::given_id;
use crate::types::opt_str_view;
use crate::types::trace_id_of;
use crate::types::type_text;

verus! {

broadcast use vstd::seq::group_seq_axioms, vstd::std_specs::vec::group_vec_axioms, vstd::string::group_string_axioms;

/// Why registration or dispatch failed.
#[derive(Debug)]
pub enum BridgeError {
    /// The tenant's bindings declare no messaging binding, though an
    /// allow-list is in force.
    MissingMessagingBinding,
    /// The named secret is in the allow-list but not declared by the
    /// tenant's messaging binding.
    SecretNotAllowed(String),
    /// The named tenant exposes no flow tagged as messaging.
    NoMessagingFlow(String),
    /// The named tenant has no registry entry.
    TenantNotRegistered(String),
    /// The engine failed; carries the cause's text.
    ExecutionFailed(String),
}

/// The mathematical model of a `BridgeError`.
pub enum BridgeErrorV {
    MissingMessagingBinding,
    SecretNotAllowed(Seq<char>),
    NoMessagingFlow(Seq<char>),
    TenantNotRegistered(Seq<char>),
    ExecutionFailed(Seq<char>),
}

impl View for BridgeError {
    type V = BridgeErrorV;

    open spec fn view(&self) -> BridgeErrorV {
        match self {
            BridgeError::MissingMessagingBinding => BridgeErrorV::MissingMessagingBinding,
            BridgeError::SecretNotAllowed(s) => BridgeErrorV::SecretNotAllowed(s@),
            BridgeError::NoMessagingFlow(t) => BridgeErrorV::NoMessagingFlow(t@),
            BridgeError::TenantNotRegistered(t) => BridgeErrorV::TenantNotRegistered(t@),
            BridgeError::ExecutionFailed(m) => BridgeErrorV::ExecutionFailed(m@),
        }
    }
}

/// One flow the engine exposes: its id and its type tag.
#[derive(Debug)]
pub struct FlowInfo {
    pub id: String,
    pub type_tag: String,
}

/// The mathematical model of a `FlowInfo`.
pub struct FlowInfoV {
    pub id: Seq<char>,
    pub type_tag: Seq<char>,
}

impl View for FlowInfo {
    type V = FlowInfoV;

    open spec fn view(&self) -> FlowInfoV {
        FlowInfoV { id: self.id@, type_tag: self.type_tag@ }
    }
}

/// What the embedder learned from loading a tenant's bindings and priming
/// its engine: the flows it exposes, and the secret names its messaging
/// binding declares (`None` when it has no messaging binding).
#[derive(Debug)]
pub struct EngineDescription {
    pub flows: Vec<FlowInfo>,
    pub messaging_secrets: Option<Vec<String>>,
}

/// One registered tenant: its name, the flows its engine exposes, and its
/// default messaging flow.
#[derive(Debug)]
pub struct TenantRuntime {
    pub tenant: String,
    pub flow_ids: Vec<String>,
    pub messaging_flow_id: String,
}

/// The mathematical model of a `TenantRuntime`.
pub struct TenantRuntimeV {
    pub tenant: Seq<char>,
    pub flow_ids: Seq<Seq<char>>,
    pub messaging_flow_id: Seq<char>,
}

impl View for TenantRuntime {
    type V = TenantRuntimeV;

    open spec fn view(&self) -> TenantRuntimeV {
        TenantRuntimeV {
            tenant: self.tenant@,
            flow_ids: string_views(self.flow_ids@),
            messaging_flow_id: self.messaging_flow_id@,
        }
    }
}

/// The registry's model: the registered runtimes in registration order.
pub open spec fn runtime_views(s: Seq<TenantRuntime>) -> Seq<TenantRuntimeV> {
    Seq::new(s.len(), |i: int| s[i]@)
}

/// The first registry position holding `tenant`, from `i` on.
pub open spec fn runtime_index_from(s: Seq<TenantRuntimeV>, tenant: Seq<char>, i: int) -> Option<
    int,
>
    decreases s.len() - i,
{
    if i < 0 || i >= s.len() {
        None
    } else if s[i].tenant == tenant {
        Some(i)
    } else {
        runtime_index_from(s, tenant, i + 1)
    }
}

pub open spec fn runtime_index(s: Seq<TenantRuntimeV>, tenant: Seq<char>) -> Option<int> {
    runtime_index_from(s, tenant, 0)
}

/// The registry with `tenant` bound to `rt`: replaced in place when
/// registered, appended when new.
pub open spec fn runtime_set(
    s: Seq<TenantRuntimeV>,
    tenant: Seq<char>,
    rt: TenantRuntimeV,
) -> Seq<TenantRuntimeV> {
    match runtime_index(s, tenant) {
        Some(i) => s.update(i, rt),
        None => s + seq![rt],
    }
}

proof fn lemma_runtime_index_skip(s: Seq<TenantRuntimeV>, tenant: Seq<char>, i: int)
    requires
        0 <= i <= s.len(),
        forall|j: int| 0 <= j < i ==> #[trigger] s[j].tenant != tenant,
    ensures
        runtime_index(s, tenant) == runtime_index_from(s, tenant, i),
    decreases i,
{
    if i > 0 {
        lemma_runtime_index_skip(s, tenant, i - 1);
    }
}

/// Whether `x` occurs in `s`.
pub open spec fn contains_text(s: Seq<Seq<char>>, x: Seq<char>) -> bool {
    exists|i: int| 0 <= i < s.len() && s[i] == x
}

/// The tenant runtime registry: the bridge between inbound activities and
/// the per-tenant engines.
pub struct RunnerBridge {
    pub mode: Mode,
    pub allowed_secrets: Vec<String>,
    pub tenants: Vec<TenantRuntime>,
}

impl RunnerBridge {
    /// An empty registry for the given mode and secret allow-list.
    pub fn new(mode: Mode, allowed_secrets: Vec<String>) -> (r: Self)
        ensures
            r.mode == mode,
            r.allowed_secrets == allowed_secrets,
            runtime_views(r.tenants@) == Seq::<TenantRuntimeV>::empty(),
    {
        let r = RunnerBridge { mode, allowed_secrets, tenants: Vec::new() };
        proof {
            assert(runtime_views(r.tenants@) =~= Seq::<TenantRuntimeV>::empty());
        }
        r
    }
}

/// The string stored under the first of `keys` that holds one, looking from
/// position `i` of the key list on.
pub open spec fn multi_lookup_str(
    pairs: Seq<(Seq<char>, JsonValueV)>,
    keys: Seq<Seq<char>>,
    i: int,
) -> Option<Seq<char>>
    decreases keys.len() - i,
{
    if i < 0 || i >= keys.len() {
        None
    } else {
        match obj_lookup_str(pairs, keys[i]) {
            Some(s) => Some(s),
            None => multi_lookup_str(pairs, keys, i + 1),
        }
    }
}

/// The views of a key list.
pub open spec fn key_views(keys: Seq<&str>) -> Seq<Seq<char>> {
    Seq::new(keys.len(), |i: int| keys[i]@)
}

/// The first of `keys` holding a string directly in the activity's channel
/// metadata, when that metadata is an object.
pub open spec fn channel_hint(a: ActivityV, keys: Seq<Seq<char>>) -> Option<Seq<char>> {
    match a.channel_data {
        Some(JsonValueV::Object(pairs)) => multi_lookup_str(pairs, keys, 0),
        _ => None,
    }
}

/// The first of `keys` holding a string in the `session` object nested in
/// the activity's channel metadata.
pub open spec fn session_hint(a: ActivityV, keys: Seq<Seq<char>>) -> Option<Seq<char>> {
    match a.channel_data {
        Some(JsonValueV::Object(pairs)) => match obj_lookup(pairs, "session"@) {
            Some(JsonValueV::Object(sp)) => multi_lookup_str(sp, keys, 0),
            _ => None,
        },
        _ => None,
    }
}

/// The flow an activity asks for: its own metadata keys `flowId`, `flow_id`,
/// `flow` first, then the session keys in the order `flow`, `flowId`,
/// `flow_id`.
pub open spec fn flow_hint(a: ActivityV) -> Option<Seq<char>> {
    match channel_hint(a, seq!["flowId"@, "flow_id"@, "flow"@]) {
        Some(f) => Some(f),
        None => session_hint(a, seq!["flow"@, "flowId"@, "flow_id"@]),
    }
}

/// The node an activity asks for: its own metadata keys `nodeId`, `node_id`,
/// `node` first, then the session keys in the order `node`, `nodeId`,
/// `node_id`.
pub open spec fn node_hint(a: ActivityV) -> Option<Seq<char>> {
    match channel_hint(a, seq!["nodeId"@, "node_id"@, "node"@]) {
        Some(n) => Some(n),
        None => session_hint(a, seq!["node"@, "nodeId"@, "node_id"@]),
    }
}

fn multi_get_str(pairs: &Vec<(String, JsonValue)>, keys: &Vec<&str>) -> (r: Option<String>)
    ensures
        crate::types::opt_str_view(r) == multi_lookup_str(json_pair_views(pairs@), key_views(keys@), 0),
{
    let ghost kv = key_views(keys@);
    let mut i: usize = 0;
    while i < keys.len()
        invariant
            0 <= i <= keys.len(),
            kv == key_views(keys@),
            kv.len() == keys@.len(),
            forall|j: int| 0 <= j < kv.len() ==> #[trigger] kv[j] == keys@[j]@,
            forall|j: int| 0 <= j < i ==> #[trigger] obj_lookup_str(
                json_pair_views(pairs@),
                kv[j],
            ) is None,
            multi_lookup_str(json_pair_views(pairs@), kv, 0) == multi_lookup_str(
                json_pair_views(pairs@),
                kv,
                i as int,
            ),
        decreases keys.len() - i,
    {
        let key = String::from_str(keys[i]);
        match JsonValue::object_get_str(pairs, &key) {
            Some(s) => {
                return Some(s);
            },
            None => {},
        }
        i += 1;
    }
    None
}

/// The first of `keys` holding a string directly in the activity's channel
/// metadata, per `channel_hint`.
pub fn channel_string(activity: &Activity, keys: &Vec<&str>) -> (r: Option<String>)
    ensures
        crate::types::opt_str_view(r) == channel_hint(activity@, key_views(keys@)),
{
    match &activity.channel_data {
        Some(JsonValue::Object(pairs)) => multi_get_str(pairs, keys),
        _ => None,
    }
}

/// The first of `keys` holding a string in the nested `session` object, per
/// `session_hint`.
pub fn session_string(activity: &Activity, keys: &Vec<&str>) -> (r: Option<String>)
    ensures
        crate::types::opt_str_view(r) == session_hint(activity@, key_views(keys@)),
{
    match &activity.channel_data {
        Some(JsonValue::Object(pairs)) => {
            match JsonValue::object_get(pairs, &String::from_str("session")) {
                Some(JsonValue::Object(sp)) => multi_get_str(sp, keys),
                _ => None,
            }
        },
        _ => None,
    }
}

/// The flow the activity asks for, per `flow_hint`.
pub fn resolve_flow_hint(activity: &Activity) -> (r: Option<String>)
    ensures
        crate::types::opt_str_view(r) == flow_hint(activity@),
{
    let own: Vec<&str> = vec!["flowId", "flow_id", "flow"];
    let nested: Vec<&str> = vec!["flow", "flowId", "flow_id"];
    proof {
        assert(key_views(own@) =~= seq!["flowId"@, "flow_id"@, "flow"@]);
        assert(key_views(nested@) =~= seq!["flow"@, "flowId"@, "flow_id"@]);
    }
    match channel_string(activity, &own) {
        Some(f) => Some(f),
        None => session_string(activity, &nested),
    }
}

/// The node the activity asks for, per `node_hint`.
pub fn resolve_node_hint(activity: &Activity) -> (r: Option<String>)
    ensures
        crate::types::opt_str_view(r) == node_hint(activity@),
{
    let own: Vec<&str> = vec!["nodeId", "node_id", "node"];
    let nested: Vec<&str> = vec!["node", "nodeId", "node_id"];
    proof {
        assert(key_views(own@) =~= seq!["nodeId"@, "node_id"@, "node"@]);
        assert(key_views(nested@) =~= seq!["node"@, "nodeId"@, "node_id"@]);
    }
    match channel_string(activity, &own) {
        Some(n) => Some(n),
        None => session_string(activity, &nested),
    }
}

/// An otherwise empty message activity carrying `text`.
pub open spec fn default_text_activity(text: Option<Seq<char>>) -> ActivityV {
    ActivityV { text, ..empty_activity() }
}

/// An object payload with its `type` defaulted to `message` when absent.
pub open spec fn patched_object(pairs: Seq<(Seq<char>, JsonValueV)>) -> Seq<
    (Seq<char>, JsonValueV),
> {
    if obj_lookup(pairs, "type"@) is Some {
        pairs
    } else {
        pairs + seq![("type"@, JsonValueV::Text("message"@))]
    }
}

/// Whether an outbound metadata object already carries a trace id of its
/// own: a string under `traceId` or `trace_id`.
pub open spec fn own_trace(pairs: Seq<(Seq<char>, JsonValueV)>) -> bool {
    obj_lookup_str(pairs, "traceId"@) is Some || obj_lookup_str(pairs, "trace_id"@) is Some
}

/// The channel metadata an outbound activity ends up with: missing metadata
/// becomes an object naming the tenant; an object's own trace id is
/// preserved; only when the object carries none is the reference's trace
/// id, when it has one, written under `traceId` (a null grows into an
/// object holding it); metadata of any other shape is kept as it is.
pub open spec fn normalized_channel_data(
    reference: ActivityV,
    tenant: Seq<char>,
    cd: Option<JsonValueV>,
) -> JsonValueV {
    let base = match cd {
        None => JsonValueV::Object(seq![("tenant"@, JsonValueV::Text(tenant))]),
        Some(v) => v,
    };
    match trace_id_of(reference) {
        Some(t) => match base {
            JsonValueV::Object(pairs) => if own_trace(pairs) {
                JsonValueV::Object(pairs)
            } else {
                JsonValueV::Object(obj_update(pairs, "traceId"@, JsonValueV::Text(t)))
            },
            JsonValueV::Null => JsonValueV::Object(seq![("traceId"@, JsonValueV::Text(t))]),
            other => other,
        },
        None => base,
    }
}

/// An outbound activity after normalization against the inbound reference:
/// an unknown type becomes `message`, a missing id gets the fresh `id`,
/// missing conversation, counterpart and reply-to fields are backfilled from
/// the reference with sender and recipient swapped, and the channel metadata
/// is reshaped per `normalized_channel_data`.
pub open spec fn normalized(
    reference: ActivityV,
    tenant: Seq<char>,
    a: ActivityV,
    id: Seq<char>,
) -> ActivityV {
    ActivityV {
        activity_type: if a.activity_type is Unknown {
            ActivityTypeV::Message
        } else {
            a.activity_type
        },
        id: if a.id is None {
            Some(id)
        } else {
            a.id
        },
        conversation: if a.conversation is None {
            reference.conversation
        } else {
            a.conversation
        },
        from: if a.from is None {
            reference.recipient
        } else {
            a.from
        },
        recipient: if a.recipient is None {
            reference.from
        } else {
            a.recipient
        },
        reply_to_id: if a.reply_to_id is None {
            reference.id
        } else {
            a.reply_to_id
        },
        channel_data: Some(normalized_channel_data(reference, tenant, a.channel_data)),
        ..a
    }
}

/// The activity an engine output value coerces to, given the fresh `id`
/// assigned when the output carries none: null and scalars become a default
/// message whose text is the value's textual form; an object has its `type`
/// defaulted to `message` and is read as an activity, falling back to a
/// message carrying the object's rendered text when it does not parse; a
/// nested array becomes a message carrying its rendered text. The result is
/// then normalized against the reference.
pub open spec fn coerced(
    reference: ActivityV,
    tenant: Seq<char>,
    v: JsonValueV,
    id: Seq<char>,
) -> ActivityV {
    match v {
        JsonValueV::Null => normalized(reference, tenant, default_text_activity(None), id),
        JsonValueV::Text(s) => normalized(reference, tenant, default_text_activity(Some(s)), id),
        JsonValueV::Bool(b) => normalized(
            reference,
            tenant,
            default_text_activity(
                Some(
                    if b {
                        "true"@
                    } else {
                        "false"@
                    },
                ),
            ),
            id,
        ),
        JsonValueV::Number(n) => normalized(
            reference,
            tenant,
            default_text_activity(Some(n)),
            id,
        ),
        JsonValueV::Object(pairs) => {
            let patched = patched_object(pairs);
            match decode_activity(JsonValueV::Object(patched)) {
                Some(a) => normalized(reference, tenant, a, id),
                None => normalized(
                    reference,
                    tenant,
                    default_text_activity(Some(text_of(JsonValueV::Object(patched)))),
                    id,
                ),
            }
        },
        JsonValueV::Array(_) => normalized(
            reference,
            tenant,
            default_text_activity(Some(text_of(v))),
            id,
        ),
    }
}

/// Relies on uuid::Uuid::new_v4 and its hyphenated rendering: a fresh
/// 36-character identifier.
#[verifier::external_body]
fn fresh_id() -> (r: String)
    ensures
        r@.len() == 36,
{
    uuid::Uuid::new_v4().to_string()
}

/// Normalizes an outbound activity in place against the inbound reference,
/// per `normalized`; a missing id is assigned a freshly generated one.
pub fn normalize_outgoing(reference: &Activity, tenant: &str, activity: &mut Activity)
    ensures
        final(activity)@.id is Some,
        final(activity)@ == normalized(
            reference@,
            tenant@,
            old(activity)@,
            given_id(final(activity)@),
        ),
        old(activity)@.id is None ==> given_id(final(activity)@).len() == 36,
{
    if activity.activity_type.is_unknown() {
        activity.activity_type = ActivityType::Message;
    }
    if activity.id.is_none() {
        activity.id = Some(fresh_id());
    }
    if activity.conversation.is_none() {
        activity.conversation = match &reference.conversation {
            Some(c) => Some(c.clone()),
            None => None,
        };
    }
    if activity.from.is_none() {
        activity.from = match &reference.recipient {
            Some(c) => Some(c.clone()),
            None => None,
        };
    }
    if activity.recipient.is_none() {
        activity.recipient = match &reference.from {
            Some(c) => Some(c.clone()),
            None => None,
        };
    }
    if activity.reply_to_id.is_none() {
        activity.reply_to_id = clone_opt_string(&reference.id);
    }
    let trace = reference.tenant_trace_id();
    let base: JsonValue = match &activity.channel_data {
        None => {
            let mut pairs: Vec<(String, JsonValue)> = Vec::new();
            pairs.push((String::from_str("tenant"), JsonValue::Text(tenant.to_owned())));
            let b = JsonValue::Object(pairs);
            proof {
                lemma_json_pair_views(pairs@);
                assert(json_pair_views(pairs@) =~= seq![
                    ("tenant"@, JsonValueV::Text(tenant@)),
                ]);
            }
            b
        },
        Some(v) => clone_json(v),
    };
    let seeded: JsonValue = match trace {
        Some(t) => match base {
            JsonValue::Object(mut pairs) => {
                let has_own = JsonValue::object_get_str(&pairs, &String::from_str("traceId"))
                    .is_some() || JsonValue::object_get_str(
                    &pairs,
                    &String::from_str("trace_id"),
                ).is_some();
                if !has_own {
                    JsonValue::object_set(
                        &mut pairs,
                        &String::from_str("traceId"),
                        JsonValue::Text(t),
                    );
                }
                JsonValue::Object(pairs)
            },
            JsonValue::Null => {
                let mut pairs: Vec<(String, JsonValue)> = Vec::new();
                pairs.push((String::from_str("traceId"), JsonValue::Text(t)));
                let b = JsonValue::Object(pairs);
                proof {
                    lemma_json_pair_views(pairs@);
                    assert(json_pair_views(pairs@) =~= seq![
                        ("traceId"@, JsonValueV::Text(trace_id_of(reference@)->0)),
                    ]);
                }
                b
            },
            other => other,
        },
        None => base,
    };
    activity.channel_data = Some(seeded);
}

/// A default outbound message carrying `text`, normalized against the
/// reference.
fn default_activity(reference: &Activity, tenant: &str, text: Option<String>) -> (r: Activity)
    ensures
        r@.id is Some,
        r@ == normalized(
            reference@,
            tenant@,
            default_text_activity(opt_str_view(text)),
            given_id(r@),
        ),
{
    let mut activity = Activity::default();
    activity.text = text;
    normalize_outgoing(reference, tenant, &mut activity);
    activity
}

/// The activity one engine output value coerces to, per `coerced`. Never
/// fails: output that does not parse degrades to a visible text message.
pub fn coerce_activity(reference: &Activity, tenant: &str, value: JsonValue) -> (r: Result<
    Activity,
    BridgeError,
>)
    ensures
        r is Ok,
        r matches Ok(a) ==> a@.id is Some && a@ == coerced(
            reference@,
            tenant@,
            value@,
            given_id(a@),
        ),
{
    match value {
        JsonValue::Null => Ok(default_activity(reference, tenant, None)),
        JsonValue::Text(s) => Ok(default_activity(reference, tenant, Some(s))),
        JsonValue::Bool(b) => {
            let text = if b {
                String::from_str("true")
            } else {
                String::from_str("false")
            };
            Ok(default_activity(reference, tenant, Some(text)))
        },
        JsonValue::Number(n) => Ok(default_activity(reference, tenant, Some(n))),
        JsonValue::Object(mut pairs) => {
            let ghost orig = json_pair_views(pairs@);
            proof {
                lemma_json_pair_views(pairs@);
            }
            let type_key = String::from_str("type");
            if JsonValue::object_key_index(&pairs, &type_key).is_none() {
                pairs.push((type_key, JsonValue::Text(String::from_str("message"))));
                proof {
                    lemma_json_pair_views(pairs@);
                    assert(json_pair_views(pairs@) =~= orig + seq![
                        ("type"@, JsonValueV::Text("message"@)),
                    ]);
                }
            }
            let patched = JsonValue::Object(pairs);
            proof {
                assert(patched@ matches JsonValueV::Object(pv) && pv == patched_object(orig));
                assert(value@ == JsonValueV::Object(orig));
            }
            match activity_from_value(&patched) {
                Ok(mut activity) => {
                    normalize_outgoing(reference, tenant, &mut activity);
                    Ok(activity)
                },
                Err(_) => {
                    let text = json_text(&patched);
                    Ok(default_activity(reference, tenant, Some(text)))
                },
            }
        },
        JsonValue::Array(_) => {
            let text = json_text(&value);
            Ok(default_activity(reference, tenant, Some(text)))
        },
    }
}

/// The views of an activity list.
pub open spec fn activity_views(s: Seq<Activity>) -> Seq<ActivityV> {
    Seq::new(s.len(), |i: int| s[i]@)
}

/// Whether `outs` is a correct coercion of the engine output `v`: an array
/// coerces element by element in order, anything else to a single activity;
/// every produced activity carries an id.
pub open spec fn outputs_match(
    reference: ActivityV,
    tenant: Seq<char>,
    v: JsonValueV,
    outs: Seq<ActivityV>,
) -> bool {
    match v {
        JsonValueV::Array(items) => outs.len() == items.len() && forall|i: int|
            0 <= i < items.len() ==> (#[trigger] outs[i]).id is Some && outs[i] == coerced(
                reference,
                tenant,
                items[i],
                given_id(outs[i]),
            ),
        _ => outs.len() == 1 && outs[0].id is Some && outs[0] == coerced(
            reference,
            tenant,
            v,
            given_id(outs[0]),
        ),
    }
}

/// The outbound activities an engine output coerces to, per
/// `outputs_match`: one per array element, else exactly one.
pub fn flow_value_to_activities(reference: &Activity, tenant: &str, value: JsonValue) -> (r:
    Result<Vec<Activity>, BridgeError>)
    ensures
        r is Ok,
        r matches Ok(acts) ==> outputs_match(reference@, tenant@, value@, activity_views(acts@)),
{
    match value {
        JsonValue::Array(items) => {
            let ghost itemsv = json_views(items@);
            proof {
                lemma_json_views(items@);
            }
            let mut results: Vec<Activity> = Vec::new();
            let mut i: usize = 0;
            while i < items.len()
                invariant
                    0 <= i <= items.len(),
                    itemsv == json_views(items@),
                    itemsv.len() == items@.len(),
                    forall|j: int| 0 <= j < items@.len()
                        ==> #[trigger] itemsv[j] == crate::json::json_view(items@[j]),
                    results@.len() == i,
                    forall|j: int| 0 <= j < i ==> (#[trigger] results@[j]@).id is Some
                        && results@[j]@ == coerced(
                        reference@,
                        tenant@,
                        itemsv[j],
                        given_id(results@[j]@),
                    ),
                decreases items.len() - i,
            {
                let item = clone_json(&items[i]);
                match coerce_activity(reference, tenant, item) {
                    Ok(a) => {
                        results.push(a);
                    },
                    Err(e) => {
                        return Err(e);
                    },
                }
                i += 1;
            }
            proof {
                assert forall|j: int| 0 <= j < activity_views(results@).len() implies (
                #[trigger] activity_views(results@)[j]).id is Some && activity_views(results@)[j]
                    == coerced(
                    reference@,
                    tenant@,
                    itemsv[j],
                    given_id(activity_views(results@)[j]),
                ) by {
                    assert(activity_views(results@)[j] == results@[j]@);
                }
            }
            Ok(results)
        },
        other => {
            let a = match coerce_activity(reference, tenant, other) {
                Ok(a) => a,
                Err(e) => {
                    return Err(e);
                },
            };
            let mut results: Vec<Activity> = Vec::new();
            results.push(a);
            Ok(results)
        },
    }
}

/// A resolved dispatch target: the flow to run and the optional entry node.
#[derive(Debug)]
pub struct FlowSelection {
    pub flow_id: String,
    pub node: Option<String>,
}

/// The flow an activity dispatches to: a flow hint that names one of the
/// tenant's flows wins; a hint that names no known flow, or no hint,
/// degrades to the tenant's default messaging flow.
pub open spec fn selected_flow(rt: TenantRuntimeV, a: ActivityV) -> Seq<char> {
    match flow_hint(a) {
        Some(f) => if contains_text(rt.flow_ids, f) {
            f
        } else {
            rt.messaging_flow_id
        },
        None => rt.messaging_flow_id,
    }
}

/// The flow and node an activity dispatches to, per `selected_flow` and
/// `node_hint`. A tenant hint in the session metadata never changes the
/// outcome: routing goes by the subscription, not by a client claim.
pub fn select_flow(runtime: &TenantRuntime, activity: &Activity) -> (r: FlowSelection)
    ensures
        r.flow_id@ == selected_flow(runtime@, activity@),
        opt_str_view(r.node) == node_hint(activity@),
{
    let node = resolve_node_hint(activity);
    match resolve_flow_hint(activity) {
        Some(f) => {
            if crate::strutil::contains_string(&runtime.flow_ids, f.as_str()) {
                FlowSelection { flow_id: f, node }
            } else {
                FlowSelection { flow_id: runtime.messaging_flow_id.clone(), node }
            }
        },
        None => FlowSelection { flow_id: runtime.messaging_flow_id.clone(), node },
    }
}

/// The engine input an activity denotes: its full structural rendering under
/// `activity`, beside a denormalized envelope repeating the fields the
/// backend may want directly.
pub open spec fn flow_input(a: ActivityV) -> JsonValueV {
    JsonValueV::Object(
        seq![
            ("activity"@, encode_activity(a)),
            ("type"@, JsonValueV::Text(type_text(a.activity_type))),
            ("text"@, encode_opt_str(a.text)),
            ("value"@, encode_opt_value(a.value)),
            (
                "attachments"@,
                match a.attachments {
                    Some(s) => encode_attachments(s),
                    None => JsonValueV::Null,
                },
            ),
            ("channelData"@, encode_opt_value(a.channel_data)),
            (
                "conversation"@,
                match a.conversation {
                    Some(c) => encode_conversation(c),
                    None => JsonValueV::Null,
                },
            ),
            (
                "from"@,
                match a.from {
                    Some(x) => encode_account(x),
                    None => JsonValueV::Null,
                },
            ),
            (
                "recipient"@,
                match a.recipient {
                    Some(x) => encode_account(x),
                    None => JsonValueV::Null,
                },
            ),
            ("entities"@, JsonValueV::Array(a.entities)),
        ],
    )
}

/// The engine input an activity denotes, per `flow_input`.
pub fn activity_to_flow_input(activity: &Activity) -> (r: JsonValue)
    ensures
        r@ == flow_input(activity@),
{
    let mut pairs: Vec<(String, JsonValue)> = Vec::new();
    pairs.push((String::from_str("activity"), activity_to_value(activity)));
    pairs.push(
        (String::from_str("type"), JsonValue::Text(activity.activity_type.as_str().to_owned())),
    );
    pairs.push((String::from_str("text"), opt_str_value(&activity.text)));
    let value = match &activity.value {
        Some(v) => clone_json(v),
        None => JsonValue::Null,
    };
    pairs.push((String::from_str("value"), value));
    let attachments = match &activity.attachments {
        Some(v) => attachments_value(v),
        None => JsonValue::Null,
    };
    pairs.push((String::from_str("attachments"), attachments));
    let channel_data = match &activity.channel_data {
        Some(v) => clone_json(v),
        None => JsonValue::Null,
    };
    pairs.push((String::from_str("channelData"), channel_data));
    let conversation = match &activity.conversation {
        Some(c) => conversation_value(c),
        None => JsonValue::Null,
    };
    pairs.push((String::from_str("conversation"), conversation));
    let from = match &activity.from {
        Some(x) => account_value(x),
        None => JsonValue::Null,
    };
    pairs.push((String::from_str("from"), from));
    let recipient = match &activity.recipient {
        Some(x) => account_value(x),
        None => JsonValue::Null,
    };
    pairs.push((String::from_str("recipient"), recipient));
    pairs.push((String::from_str("entities"), JsonValue::Array(clone_json_list(&activity.entities))));
    let r = JsonValue::Object(pairs);
    proof {
        lemma_json_pair_views(pairs@);
        let target = flow_input(activity@)->Object_0;
        assert forall|j: int| 0 <= j < pairs@.len() implies json_pair_views(pairs@)[j]
            == target[j] by {}
        assert(json_pair_views(pairs@) =~= target);
    }
    r
}

/// The declared secret names of a messaging binding, when there is one.
pub open spec fn declared_views(o: Option<Vec<String>>) -> Option<Seq<Seq<char>>> {
    match o {
        Some(v) => Some(string_views(v@)),
        None => None,
    }
}

/// The first allow-list position, from `i` on, whose name the declared list
/// does not contain.
pub open spec fn first_disallowed(
    declared: Seq<Seq<char>>,
    allowed: Seq<Seq<char>>,
    i: int,
) -> Option<int>
    decreases allowed.len() - i,
{
    if i < 0 || i >= allowed.len() {
        None
    } else if !contains_text(declared, allowed[i]) {
        Some(i)
    } else {
        first_disallowed(declared, allowed, i + 1)
    }
}

/// Why the secret allow-list check fails, when it does: an empty allow-list
/// always passes; otherwise a missing messaging binding fails, and then the
/// first allow-listed name the binding does not declare fails.
pub open spec fn secrets_failure(
    declared: Option<Seq<Seq<char>>>,
    allowed: Seq<Seq<char>>,
) -> Option<BridgeErrorV> {
    if allowed.len() == 0 {
        None
    } else {
        match declared {
            None => Some(BridgeErrorV::MissingMessagingBinding),
            Some(d) => match first_disallowed(d, allowed, 0) {
                Some(i) => Some(BridgeErrorV::SecretNotAllowed(allowed[i])),
                None => None,
            },
        }
    }
}

proof fn lemma_first_disallowed_skip(declared: Seq<Seq<char>>, allowed: Seq<Seq<char>>, i: int)
    requires
        0 <= i <= allowed.len(),
        forall|j: int| 0 <= j < i ==> contains_text(declared, #[trigger] allowed[j]),
    ensures
        first_disallowed(declared, allowed, 0) == first_disallowed(declared, allowed, i),
    decreases i,
{
    if i > 0 {
        lemma_first_disallowed_skip(declared, allowed, i - 1);
    }
}

/// Checks that every allow-listed secret name is declared by the tenant's
/// messaging binding, failing per `secrets_failure`. This is the security
/// gate that keeps a tenant from using secrets it has not declared.
pub fn ensure_allowed_secrets(messaging_secrets: &Option<Vec<String>>, allowed: &Vec<String>) -> (r:
    Result<(), BridgeError>)
    ensures
        match r {
            Ok(_) => secrets_failure(declared_views(*messaging_secrets), string_views(allowed@))
                is None,
            Err(e) => secrets_failure(declared_views(*messaging_secrets), string_views(allowed@))
                == Some(e@),
        },
{
    if allowed.len() == 0 {
        return Ok(());
    }
    let declared = match messaging_secrets {
        Some(d) => d,
        None => {
            return Err(BridgeError::MissingMessagingBinding);
        },
    };
    let ghost dv = string_views(declared@);
    let ghost av = string_views(allowed@);
    let mut i: usize = 0;
    while i < allowed.len()
        invariant
            0 <= i <= allowed.len(),
            dv == string_views(declared@),
            av == string_views(allowed@),
            av.len() == allowed@.len(),
            declared_views(*messaging_secrets) == Some(dv),
            forall|j: int| 0 <= j < i ==> contains_text(dv, #[trigger] av[j]),
        decreases allowed.len() - i,
    {
        if !crate::strutil::contains_string(declared, allowed[i].as_str()) {
            proof {
                lemma_first_disallowed_skip(dv, av, i as int);
                assert(!contains_text(dv, av[i as int]));
                assert(first_disallowed(dv, av, i as int) == Some(i as int));
                assert(secrets_failure(declared_views(*messaging_secrets), av) == Some(
                    BridgeErrorV::SecretNotAllowed(av[i as int]),
                ));
            }
            return Err(BridgeError::SecretNotAllowed(allowed[i].clone()));
        }
        proof {
            assert(contains_text(dv, av[i as int]));
        }
        i += 1;
    }
    proof {
        lemma_first_disallowed_skip(dv, av, i as int);
    }
    Ok(())
}

/// The views of an engine's flow list.
pub open spec fn flow_views(s: Seq<FlowInfo>) -> Seq<FlowInfoV> {
    Seq::new(s.len(), |i: int| s[i]@)
}

/// The ids of an engine's flows.
pub open spec fn flow_ids_of(s: Seq<FlowInfoV>) -> Seq<Seq<char>> {
    Seq::new(s.len(), |i: int| s[i].id)
}

/// The first flow position, from `i` on, whose type tag is `tag`.
pub open spec fn flow_by_type_from(s: Seq<FlowInfoV>, tag: Seq<char>, i: int) -> Option<int>
    decreases s.len() - i,
{
    if i < 0 || i >= s.len() {
        None
    } else if s[i].type_tag == tag {
        Some(i)
    } else {
        flow_by_type_from(s, tag, i + 1)
    }
}

pub open spec fn flow_by_type(s: Seq<FlowInfoV>, tag: Seq<char>) -> Option<int> {
    flow_by_type_from(s, tag, 0)
}

proof fn lemma_flow_by_type_skip(s: Seq<FlowInfoV>, tag: Seq<char>, i: int)
    requires
        0 <= i <= s.len(),
        forall|j: int| 0 <= j < i ==> (#[trigger] s[j]).type_tag != tag,
    ensures
        flow_by_type(s, tag) == flow_by_type_from(s, tag, i),
    decreases i,
{
    if i > 0 {
        lemma_flow_by_type_skip(s, tag, i - 1);
    }
}

/// Why registering a pack fails, when it does: the secret gate first, then
/// the want of a flow tagged `messaging`.
pub open spec fn registration_failure(
    allowed: Seq<Seq<char>>,
    engine_flows: Seq<FlowInfoV>,
    declared: Option<Seq<Seq<char>>>,
    tenant: Seq<char>,
) -> Option<BridgeErrorV> {
    match secrets_failure(declared, allowed) {
        Some(e) => Some(e),
        None => if flow_by_type(engine_flows, "messaging"@) is None {
            Some(BridgeErrorV::NoMessagingFlow(tenant))
        } else {
            None
        },
    }
}

/// The runtime a successful registration stores: the tenant's name, the ids
/// of every engine flow, and the first flow tagged `messaging` as the
/// default dispatch target.
pub open spec fn registered_runtime(
    tenant: Seq<char>,
    engine_flows: Seq<FlowInfoV>,
) -> TenantRuntimeV {
    TenantRuntimeV {
        tenant,
        flow_ids: flow_ids_of(engine_flows),
        messaging_flow_id: match flow_by_type(engine_flows, "messaging"@) {
            Some(i) => engine_flows[i].id,
            None => Seq::empty(),
        },
    }
}

fn messaging_flow_position(flows: &Vec<FlowInfo>) -> (r: Option<usize>)
    ensures
        match r {
            Some(i) => i < flows@.len() && flow_by_type(flow_views(flows@), "messaging"@) == Some(
                i as int,
            ),
            None => flow_by_type(flow_views(flows@), "messaging"@) is None,
        },
{
    let ghost fv = flow_views(flows@);
    let mut i: usize = 0;
    while i < flows.len()
        invariant
            0 <= i <= flows.len(),
            fv == flow_views(flows@),
            fv.len() == flows@.len(),
            forall|j: int| 0 <= j < fv.len() ==> #[trigger] fv[j] == flows@[j]@,
            forall|j: int| 0 <= j < i ==> (#[trigger] fv[j]).type_tag != "messaging"@,
        decreases flows.len() - i,
    {
        if str_eq(flows[i].type_tag.as_str(), "messaging") {
            proof {
                lemma_flow_by_type_skip(fv, "messaging"@, i as int);
            }
            return Some(i);
        }
        i += 1;
    }
    proof {
        lemma_flow_by_type_skip(fv, "messaging"@, i as int);
    }
    None
}

impl RunnerBridge {
    fn tenant_position(&self, tenant: &str) -> (r: Option<usize>)
        ensures
            match r {
                Some(i) => i < self.tenants@.len() && runtime_index(
                    runtime_views(self.tenants@),
                    tenant@,
                ) == Some(i as int),
                None => runtime_index(runtime_views(self.tenants@), tenant@) is None,
            },
    {
        let ghost rv = runtime_views(self.tenants@);
        let mut i: usize = 0;
        while i < self.tenants.len()
            invariant
                0 <= i <= self.tenants.len(),
                rv == runtime_views(self.tenants@),
                rv.len() == self.tenants@.len(),
                forall|j: int| 0 <= j < i ==> (#[trigger] rv[j]).tenant != tenant@,
                forall|j: int| 0 <= j < rv.len() ==> #[trigger] rv[j] == self.tenants@[j]@,
            decreases self.tenants.len() - i,
        {
            if str_eq(self.tenants[i].tenant.as_str(), tenant) {
                proof {
                    lemma_runtime_index_skip(rv, tenant@, i as int);
                }
                return Some(i);
            }
            i += 1;
        }
        proof {
            lemma_runtime_index_skip(rv, tenant@, i as int);
        }
        None
    }

    /// Registers a tenant pack against its engine's declared shape.
    ///
    /// Fails per `registration_failure`: the allow-listed secrets must all
    /// be declared by the tenant's messaging binding, and the engine must
    /// expose a flow tagged `messaging`. On success the tenant's registry
    /// entry is inserted, or replaced if it already exists — re-registration
    /// is not an error.
    pub fn register_pack(&mut self, pack: &TenantPack, engine: &EngineDescription) -> (r: Result<
        (),
        BridgeError,
    >)
        ensures
            final(self).mode == old(self).mode,
            final(self).allowed_secrets == old(self).allowed_secrets,
            match r {
                Ok(_) => {
                    &&& registration_failure(
                        string_views(old(self).allowed_secrets@),
                        flow_views(engine.flows@),
                        declared_views(engine.messaging_secrets),
                        pack.tenant@,
                    ) is None
                    &&& runtime_views(final(self).tenants@) == runtime_set(
                        runtime_views(old(self).tenants@),
                        pack.tenant@,
                        registered_runtime(pack.tenant@, flow_views(engine.flows@)),
                    )
                },
                Err(e) => {
                    &&& registration_failure(
                        string_views(old(self).allowed_secrets@),
                        flow_views(engine.flows@),
                        declared_views(engine.messaging_secrets),
                        pack.tenant@,
                    ) == Some(e@)
                    &&& final(self).tenants@ == old(self).tenants@
                },
            },
    {
        match ensure_allowed_secrets(&engine.messaging_secrets, &self.allowed_secrets) {
            Ok(_) => {},
            Err(e) => {
                return Err(e);
            },
        }
        let ghost fv = flow_views(engine.flows@);
        let messaging_idx = match messaging_flow_position(&engine.flows) {
            Some(idx) => idx,
            None => {
                return Err(BridgeError::NoMessagingFlow(pack.tenant.clone()));
            },
        };
        let mut flow_ids: Vec<String> = Vec::new();
        let mut k: usize = 0;
        while k < engine.flows.len()
            invariant
                0 <= k <= engine.flows.len(),
                flow_ids@.len() == k,
                forall|j: int| 0 <= j < k ==> #[trigger] flow_ids@[j]@ == engine.flows@[j]@.id,
            decreases engine.flows.len() - k,
        {
            flow_ids.push(engine.flows[k].id.clone());
            k += 1;
        }
        let runtime = TenantRuntime {
            tenant: pack.tenant.clone(),
            flow_ids,
            messaging_flow_id: engine.flows[messaging_idx].id.clone(),
        };
        proof {
            assert(runtime@.flow_ids =~= flow_ids_of(fv));
            assert(runtime@ == registered_runtime(pack.tenant@, fv));
        }
        let ghost before = runtime_views(self.tenants@);
        match self.tenant_position(pack.tenant.as_str()) {
            Some(pos) => {
                self.tenants.set(pos, runtime);
                proof {
                    assert(runtime_views(self.tenants@) =~= before.update(
                        pos as int,
                        registered_runtime(pack.tenant@, fv),
                    ));
                }
            },
            None => {
                self.tenants.push(runtime);
                proof {
                    assert(runtime_views(self.tenants@) =~= before + seq![
                        registered_runtime(pack.tenant@, fv),
                    ]);
                }
            },
        }
        Ok(())
    }

    /// The dispatch an inbound activity calls for: the selected flow, the
    /// optional node, and the engine input. Fails exactly when the tenant
    /// has no registry entry.
    pub fn plan_dispatch(&self, tenant: &str, activity: &Activity) -> (r: Result<
        DispatchPlan,
        BridgeError,
    >)
        ensures
            match r {
                Ok(p) => {
                    &&& runtime_index(runtime_views(self.tenants@), tenant@) matches Some(i)
                        && p.flow_id@ == selected_flow(runtime_views(self.tenants@)[i], activity@)
                    &&& opt_str_view(p.node_id) == node_hint(activity@)
                    &&& p.input@ == flow_input(activity@)
                },
                Err(e) => {
                    &&& runtime_index(runtime_views(self.tenants@), tenant@) is None
                    &&& e@ == BridgeErrorV::TenantNotRegistered(tenant@)
                },
            },
    {
        let pos = match self.tenant_position(tenant) {
            Some(pos) => pos,
            None => {
                return Err(BridgeError::TenantNotRegistered(tenant.to_owned()));
            },
        };
        let selection = select_flow(&self.tenants[pos], activity);
        let input = activity_to_flow_input(activity);
        Ok(DispatchPlan { flow_id: selection.flow_id, node_id: selection.node, input })
    }

    /// The outbound activities an engine outcome yields for an inbound
    /// activity. Fails with `TenantNotRegistered` when the tenant has no
    /// registry entry, propagates an engine failure as `ExecutionFailed`,
    /// and otherwise coerces the output per `outputs_match`.
    pub fn handle_activity(&self, tenant: &str, activity: &Activity, outcome: Result<
        JsonValue,
        String,
    >) -> (r: Result<Vec<Activity>, BridgeError>)
        ensures
            runtime_index(runtime_views(self.tenants@), tenant@) is None ==> (r matches Err(e)
                && e@ == BridgeErrorV::TenantNotRegistered(tenant@)),
            runtime_index(runtime_views(self.tenants@), tenant@) is Some ==> match outcome {
                Ok(v) => r matches Ok(acts) && outputs_match(
                    activity@,
                    tenant@,
                    v@,
                    activity_views(acts@),
                ),
                Err(m) => r matches Err(e) && e@ == BridgeErrorV::ExecutionFailed(m@),
            },
    {
        if self.tenant_position(tenant).is_none() {
            return Err(BridgeError::TenantNotRegistered(tenant.to_owned()));
        }
        match outcome {
            Ok(value) => flow_value_to_activities(activity, tenant, value),
            Err(message) => Err(BridgeError::ExecutionFailed(message)),
        }
    }
}

/// A dispatch the embedder runs against the engine: the flow, the optional
/// entry node, and the input value.
#[derive(Debug)]
pub struct DispatchPlan {
    pub flow_id: String,
    pub node_id: Option<String>,
    pub input: JsonValue,
}

/// Coercing a bare string yields one message activity carrying that text,
/// with the conversation, sender and recipient backfilled from the
/// reference (sender and recipient swapped, as a reply).
pub proof fn lemma_coerce_text(
    reference: ActivityV,
    tenant: Seq<char>,
    s: Seq<char>,
    id: Seq<char>,
)
    ensures
        coerced(reference, tenant, JsonValueV::Text(s), id).text == Some(s),
        coerced(reference, tenant, JsonValueV::Text(s), id).activity_type
            == ActivityTypeV::Message,
        coerced(reference, tenant, JsonValueV::Text(s), id).conversation == reference.conversation,
        coerced(reference, tenant, JsonValueV::Text(s), id).from == reference.recipient,
        coerced(reference, tenant, JsonValueV::Text(s), id).recipient == reference.from,
        coerced(reference, tenant, JsonValueV::Text(s), id).reply_to_id == reference.id,
{
}

/// Normalization preserves an outbound activity's own trace id and only
/// backfills from the reference: metadata that is an object carrying a
/// trace id of its own is kept exactly as it was; when it carries none and
/// the reference has a trace id, that id is written under `traceId` (null
/// and absent metadata grow into an object holding it); when the reference
/// carries none either, metadata the outbound activity brought is left
/// exactly as it was.
pub proof fn lemma_trace_propagation(
    reference: ActivityV,
    tenant: Seq<char>,
    a: ActivityV,
    id: Seq<char>,
)
    ensures
        (a.channel_data matches Some(JsonValueV::Object(own)) && own_trace(own)) ==> normalized(
            reference,
            tenant,
            a,
            id,
        ).channel_data == a.channel_data,
        trace_id_of(reference) matches Some(t) ==> match normalized(
            reference,
            tenant,
            a,
            id,
        ).channel_data {
            Some(JsonValueV::Object(pairs)) => match a.channel_data {
                Some(JsonValueV::Object(own)) => if own_trace(own) {
                    pairs == own
                } else {
                    obj_lookup_str(pairs, "traceId"@) == Some(t)
                },
                _ => obj_lookup_str(pairs, "traceId"@) == Some(t),
            },
            Some(other) => !(other is Null) && a.channel_data == Some(other),
            None => false,
        },
        trace_id_of(reference) is None && a.channel_data is Some ==> normalized(
            reference,
            tenant,
            a,
            id,
        ).channel_data == a.channel_data,
{
    reveal_strlit("tenant");
    reveal_strlit("traceId");
    reveal_strlit("trace_id");
    assert("tenant"@.len() == 6);
    assert("traceId"@.len() == 7);
    assert("trace_id"@.len() == 8);
    reveal_with_fuel(crate::json::key_index_from, 3);
    if let Some(t) = trace_id_of(reference) {
        let cd = a.channel_data;
        let base = match cd {
            None => JsonValueV::Object(seq![("tenant"@, JsonValueV::Text(tenant))]),
            Some(v) => v,
        };
        match base {
            JsonValueV::Object(pairs) => {
                if !own_trace(pairs) {
                    lemma_obj_update_lookup(pairs, "traceId"@, JsonValueV::Text(t));
                }
            },
            _ => {},
        }
    }
}

/// Looking up the key just written yields the written value.
proof fn lemma_obj_update_lookup(
    pairs: Seq<(Seq<char>, JsonValueV)>,
    key: Seq<char>,
    val: JsonValueV,
)
    ensures
        crate::json::obj_lookup(obj_update(pairs, key, val), key) == Some(val),
{
    match crate::json::key_index(pairs, key) {
        Some(i) => {
            lemma_key_index_bounds(pairs, key, 0);
            lemma_key_index_update(pairs, key, val, i, 0);
        },
        None => {
            lemma_key_index_append(pairs, key, val, 0);
        },
    }
}

proof fn lemma_key_index_bounds(pairs: Seq<(Seq<char>, JsonValueV)>, key: Seq<char>, j: int)
    requires
        0 <= j,
    ensures
        crate::json::key_index_from(pairs, key, j) matches Some(i) ==> j <= i < pairs.len(),
    decreases pairs.len() - j,
{
    if j < pairs.len() {
        lemma_key_index_bounds(pairs, key, j + 1);
    }
}

proof fn lemma_key_index_update(
    pairs: Seq<(Seq<char>, JsonValueV)>,
    key: Seq<char>,
    val: JsonValueV,
    i: int,
    j: int,
)
    requires
        crate::json::key_index_from(pairs, key, j) == Some(i),
        0 <= j <= i < pairs.len(),
    ensures
        crate::json::key_index_from(pairs.update(i, (key, val)), key, j) == Some(i),
    decreases i - j,
{
    if j < i {
        lemma_key_index_update(pairs, key, val, i, j + 1);
    }
}

proof fn lemma_key_index_append(
    pairs: Seq<(Seq<char>, JsonValueV)>,
    key: Seq<char>,
    val: JsonValueV,
    j: int,
)
    requires
        crate::json::key_index_from(pairs, key, j) is None,
        0 <= j <= pairs.len(),
    ensures
        crate::json::key_index_from(pairs + seq![(key, val)], key, j) == Some(pairs.len() as int),
    decreases pairs.len() - j,
{
    if j < pairs.len() {
        lemma_key_index_append(pairs, key, val, j + 1);
    }
}

} // verus!
