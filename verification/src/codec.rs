//! Translation between structured wire values and the `Activity` schema:
//! what a payload must look like to decode, and the exact shape an activity
//! takes when rendered back out.

use vstd::prelude::*;
use crate::json::JsonValue;
use crate::json::JsonValueV;
use crate::json::clone_json;
use crate::json::clone_json_list;
use crate::json::json_view;
use crate::json::json_views;
use crate::json::lemma_json_views;
use crate::json::obj_lookup;
use crate::types::Activity;
use crate::types::ActivityType;
use crate::types::ActivityV;
use crate::types::Attachment;
use crate::types::AttachmentV;
use crate::types::ChannelAccount;
use crate::types::ChannelAccountV;
use crate::types::ConversationAccount;
use crate::types::ConversationAccountV;
use crate::types::attachments_view;
use crate::types::opt_account_view;
use crate::types::opt_attachments_view;
use crate::types::opt_conversation_view;
use crate::types::opt_json_view;
use crate::types::opt_str_view;
use crate::types::type_of_text;
use crate::types::type_text;

verus! {

broadcast use vstd::seq::group_seq_axioms, vstd::std_specs::vec::group_vec_axioms, vstd::string::group_string_axioms;

/// A payload that does not fit the `Activity` schema.
#[derive(Debug, Clone, Copy, PartialEq, Eq)]
pub struct DecodeError;

/// An optional string field: absent and null read as absent, a string reads
/// as itself, anything else refuses the payload (outer `None`).
pub open spec fn str_field(
    pairs: Seq<(Seq<char>, JsonValueV)>,
    key: Seq<char>,
) -> Option<Option<Seq<char>>> {
    match obj_lookup(pairs, key) {
        None => Some(None),
        Some(JsonValueV::Null) => Some(None),
        Some(JsonValueV::Text(s)) => Some(Some(s)),
        Some(_) => None,
    }
}

/// An optional structured field: absent and null read as absent, anything
/// else reads as itself.
pub open spec fn value_field(
    pairs: Seq<(Seq<char>, JsonValueV)>,
    key: Seq<char>,
) -> Option<JsonValueV> {
    match obj_lookup(pairs, key) {
        None => None,
        Some(JsonValueV::Null) => None,
        Some(v) => Some(v),
    }
}

/// An account record: an object with optional string `id` and `name`; other
/// keys are ignored, other shapes refuse the payload.
pub open spec fn decode_account(v: JsonValueV) -> Option<ChannelAccountV> {
    match v {
        JsonValueV::Object(pairs) => match (str_field(pairs, "id"@), str_field(pairs, "name"@)) {
            (Some(id), Some(name)) => Some(ChannelAccountV { id, name }),
            _ => None,
        },
        _ => None,
    }
}

/// An optional account field.
pub open spec fn account_field(
    pairs: Seq<(Seq<char>, JsonValueV)>,
    key: Seq<char>,
) -> Option<Option<ChannelAccountV>> {
    match obj_lookup(pairs, key) {
        None => Some(None),
        Some(JsonValueV::Null) => Some(None),
        Some(v) => match decode_account(v) {
            Some(a) => Some(Some(a)),
            None => None,
        },
    }
}

/// An optional conversation field, shaped like an account record.
pub open spec fn conversation_field(
    pairs: Seq<(Seq<char>, JsonValueV)>,
    key: Seq<char>,
) -> Option<Option<ConversationAccountV>> {
    match account_field(pairs, key) {
        Some(Some(a)) => Some(Some(ConversationAccountV { id: a.id, name: a.name })),
        Some(None) => Some(None),
        None => None,
    }
}

/// One attachment: an object with a required string `contentType`, a
/// required `content` of any shape, and an optional string `name`.
pub open spec fn decode_attachment(v: JsonValueV) -> Option<AttachmentV> {
    match v {
        JsonValueV::Object(pairs) => match obj_lookup(pairs, "contentType"@) {
            Some(JsonValueV::Text(ct)) => match obj_lookup(pairs, "content"@) {
                Some(content) => match str_field(pairs, "name"@) {
                    Some(name) => Some(AttachmentV { content_type: ct, content, name }),
                    None => None,
                },
                None => None,
            },
            _ => None,
        },
        _ => None,
    }
}

pub open spec fn decode_attachments_from(items: Seq<JsonValueV>, i: int) -> Option<
    Seq<AttachmentV>,
>
    decreases items.len() - i,
{
    if i < 0 || i >= items.len() {
        Some(Seq::empty())
    } else {
        match decode_attachment(items[i]) {
            None => None,
            Some(a) => match decode_attachments_from(items, i + 1) {
                None => None,
                Some(rest) => Some(seq![a] + rest),
            },
        }
    }
}

/// An optional attachment list: absent and null read as absent; an array
/// reads element by element; other shapes refuse the payload.
pub open spec fn attachments_field(pairs: Seq<(Seq<char>, JsonValueV)>) -> Option<
    Option<Seq<AttachmentV>>,
> {
    match obj_lookup(pairs, "attachments"@) {
        None => Some(None),
        Some(JsonValueV::Null) => Some(None),
        Some(JsonValueV::Array(items)) => match decode_attachments_from(items, 0) {
            Some(atts) => Some(Some(atts)),
            None => None,
        },
        Some(_) => None,
    }
}

/// The entity list: absent reads as empty, an array reads as its elements,
/// other shapes refuse the payload.
pub open spec fn entities_field(pairs: Seq<(Seq<char>, JsonValueV)>) -> Option<Seq<JsonValueV>> {
    match obj_lookup(pairs, "entities"@) {
        None => Some(Seq::empty()),
        Some(JsonValueV::Array(items)) => Some(items),
        Some(_) => None,
    }
}

/// What an `Activity` a payload denotes, if any: the payload must be an
/// object whose `type` is a string; every other field is optional, read as
/// the helper functions above say; unknown keys are ignored.
pub open spec fn decode_activity(v: JsonValueV) -> Option<ActivityV> {
    match v {
        JsonValueV::Object(pairs) => match obj_lookup(pairs, "type"@) {
            Some(JsonValueV::Text(ty)) => decode_activity_fields(pairs, type_of_text(ty)),
            _ => None,
        },
        _ => None,
    }
}

pub open spec fn decode_activity_fields(
    pairs: Seq<(Seq<char>, JsonValueV)>,
    ty: crate::types::ActivityTypeV,
) -> Option<ActivityV> {
    match (
        str_field(pairs, "id"@),
        str_field(pairs, "timestamp"@),
        str_field(pairs, "serviceUrl"@),
        str_field(pairs, "channelId"@),
        account_field(pairs, "from"@),
        account_field(pairs, "recipient"@),
        conversation_field(pairs, "conversation"@),
        str_field(pairs, "text"@),
        attachments_field(pairs),
        str_field(pairs, "replyToId"@),
        str_field(pairs, "name"@),
        entities_field(pairs),
    ) {
        (
            Some(id),
            Some(timestamp),
            Some(service_url),
            Some(channel_id),
            Some(from),
            Some(recipient),
            Some(conversation),
            Some(text),
            Some(attachments),
            Some(reply_to_id),
            Some(name),
            Some(entities),
        ) => Some(
            ActivityV {
                activity_type: ty,
                id,
                timestamp,
                service_url,
                channel_id,
                from,
                recipient,
                conversation,
                text,
                attachments,
                value: value_field(pairs, "value"@),
                channel_data: value_field(pairs, "channelData"@),
                reply_to_id,
                name,
                entities,
            },
        ),
        _ => None,
    }
}

/// An optional string rendered as a field value: the string itself, or null.
pub open spec fn encode_opt_str(o: Option<Seq<char>>) -> JsonValueV {
    match o {
        Some(s) => JsonValueV::Text(s),
        None => JsonValueV::Null,
    }
}

/// An optional structured value rendered as a field value.
pub open spec fn encode_opt_value(o: Option<JsonValueV>) -> JsonValueV {
    match o {
        Some(v) => v,
        None => JsonValueV::Null,
    }
}

/// An account rendered as an object with `id` and `name`.
pub open spec fn encode_account(a: ChannelAccountV) -> JsonValueV {
    JsonValueV::Object(seq![("id"@, encode_opt_str(a.id)), ("name"@, encode_opt_str(a.name))])
}

/// A conversation record rendered as an object with `id` and `name`.
pub open spec fn encode_conversation(c: ConversationAccountV) -> JsonValueV {
    JsonValueV::Object(seq![("id"@, encode_opt_str(c.id)), ("name"@, encode_opt_str(c.name))])
}

/// An attachment rendered as an object with `contentType`, `content` and
/// `name`.
pub open spec fn encode_attachment(a: AttachmentV) -> JsonValueV {
    JsonValueV::Object(
        seq![
            ("contentType"@, JsonValueV::Text(a.content_type)),
            ("content"@, a.content),
            ("name"@, encode_opt_str(a.name)),
        ],
    )
}

pub open spec fn encode_attachments(s: Seq<AttachmentV>) -> JsonValueV {
    JsonValueV::Array(Seq::new(s.len(), |i: int| encode_attachment(s[i])))
}

/// The full structural rendering of an activity: every field appears, absent
/// optional fields as null, in declaration order.
pub open spec fn encode_activity(a: ActivityV) -> JsonValueV {
    JsonValueV::Object(
        seq![
            ("type"@, JsonValueV::Text(type_text(a.activity_type))),
            ("id"@, encode_opt_str(a.id)),
            ("timestamp"@, encode_opt_str(a.timestamp)),
            ("serviceUrl"@, encode_opt_str(a.service_url)),
            ("channelId"@, encode_opt_str(a.channel_id)),
            (
                "from"@,
                match a.from {
                    Some(x) => encode_account(x),
                    None => JsonValueV::Null,
                },
            ),
            (
                "recipient"@,
                match a.recipient {
                    Some(x) => encode_account(x),
                    None => JsonValueV::Null,
                },
            ),
            (
                "conversation"@,
                match a.conversation {
                    Some(x) => encode_conversation(x),
                    None => JsonValueV::Null,
                },
            ),
            ("text"@, encode_opt_str(a.text)),
            (
                "attachments"@,
                match a.attachments {
                    Some(s) => encode_attachments(s),
                    None => JsonValueV::Null,
                },
            ),
            ("value"@, encode_opt_value(a.value)),
            ("channelData"@, encode_opt_value(a.channel_data)),
            ("replyToId"@, encode_opt_str(a.reply_to_id)),
            ("name"@, encode_opt_str(a.name)),
            ("entities"@, JsonValueV::Array(a.entities)),
        ],
    )
}

pub(crate) fn opt_str_value(o: &Option<String>) -> (r: JsonValue)
    ensures
        r@ == encode_opt_str(opt_str_view(*o)),
{
    match o {
        Some(s) => JsonValue::Text(s.clone()),
        None => JsonValue::Null,
    }
}

pub(crate) fn account_value(a: &ChannelAccount) -> (r: JsonValue)
    ensures
        r@ == encode_account(a@),
{
    let mut pairs: Vec<(String, JsonValue)> = Vec::new();
    pairs.push((String::from_str("id"), opt_str_value(&a.id)));
    pairs.push((String::from_str("name"), opt_str_value(&a.name)));
    let r = JsonValue::Object(pairs);
    proof {
        crate::json::lemma_json_pair_views(pairs@);
        assert(crate::json::json_pair_views(pairs@) =~= seq![
            ("id"@, encode_opt_str(a@.id)),
            ("name"@, encode_opt_str(a@.name)),
        ]);
    }
    r
}

pub(crate) fn conversation_value(c: &ConversationAccount) -> (r: JsonValue)
    ensures
        r@ == encode_conversation(c@),
{
    let mut pairs: Vec<(String, JsonValue)> = Vec::new();
    pairs.push((String::from_str("id"), opt_str_value(&c.id)));
    pairs.push((String::from_str("name"), opt_str_value(&c.name)));
    let r = JsonValue::Object(pairs);
    proof {
        crate::json::lemma_json_pair_views(pairs@);
        assert(crate::json::json_pair_views(pairs@) =~= seq![
            ("id"@, encode_opt_str(c@.id)),
            ("name"@, encode_opt_str(c@.name)),
        ]);
    }
    r
}

fn attachment_value(a: &Attachment) -> (r: JsonValue)
    ensures
        r@ == encode_attachment(a@),
{
    let mut pairs: Vec<(String, JsonValue)> = Vec::new();
    pairs.push((String::from_str("contentType"), JsonValue::Text(a.content_type.clone())));
    pairs.push((String::from_str("content"), clone_json(&a.content)));
    pairs.push((String::from_str("name"), opt_str_value(&a.name)));
    let r = JsonValue::Object(pairs);
    proof {
        crate::json::lemma_json_pair_views(pairs@);
        assert(crate::json::json_pair_views(pairs@) =~= seq![
            ("contentType"@, JsonValueV::Text(a@.content_type)),
            ("content"@, a@.content),
            ("name"@, encode_opt_str(a@.name)),
        ]);
    }
    r
}

pub(crate) fn attachments_value(atts: &Vec<Attachment>) -> (r: JsonValue)
    ensures
        r@ == encode_attachments(attachments_view(atts@)),
{
    let mut out: Vec<JsonValue> = Vec::new();
    let mut i: usize = 0;
    while i < atts.len()
        invariant
            0 <= i <= atts.len(),
            out@.len() == i,
            forall|j: int| 0 <= j < i
                ==> #[trigger] json_view(out@[j]) == encode_attachment(atts@[j]@),
        decreases atts.len() - i,
    {
        out.push(attachment_value(&atts[i]));
        i += 1;
    }
    let r = JsonValue::Array(out);
    proof {
        lemma_json_views(out@);
        let target = Seq::new(attachments_view(atts@).len(), |j: int|
            encode_attachment(attachments_view(atts@)[j]));
        assert forall|j: int| 0 <= j < out@.len() implies json_views(out@)[j] == target[j] by {
            assert(json_view(out@[j]) == encode_attachment(atts@[j]@));
        }
        assert(json_views(out@) =~= target);
    }
    r
}

/// The full structural rendering of an activity, per `encode_activity`.
pub fn activity_to_value(a: &Activity) -> (r: JsonValue)
    ensures
        r@ == encode_activity(a@),
{
    let mut pairs: Vec<(String, JsonValue)> = Vec::new();
    pairs.push(
        (String::from_str("type"), JsonValue::Text(a.activity_type.as_str().to_owned())),
    );
    pairs.push((String::from_str("id"), opt_str_value(&a.id)));
    pairs.push((String::from_str("timestamp"), opt_str_value(&a.timestamp)));
    pairs.push((String::from_str("serviceUrl"), opt_str_value(&a.service_url)));
    pairs.push((String::from_str("channelId"), opt_str_value(&a.channel_id)));
    let from = match &a.from {
        Some(x) => account_value(x),
        None => JsonValue::Null,
    };
    pairs.push((String::from_str("from"), from));
    let recipient = match &a.recipient {
        Some(x) => account_value(x),
        None => JsonValue::Null,
    };
    pairs.push((String::from_str("recipient"), recipient));
    let conversation = match &a.conversation {
        Some(x) => conversation_value(x),
        None => JsonValue::Null,
    };
    pairs.push((String::from_str("conversation"), conversation));
    pairs.push((String::from_str("text"), opt_str_value(&a.text)));
    let attachments = match &a.attachments {
        Some(v) => attachments_value(v),
        None => JsonValue::Null,
    };
    pairs.push((String::from_str("attachments"), attachments));
    let value = match &a.value {
        Some(v) => clone_json(v),
        None => JsonValue::Null,
    };
    pairs.push((String::from_str("value"), value));
    let channel_data = match &a.channel_data {
        Some(v) => clone_json(v),
        None => JsonValue::Null,
    };
    pairs.push((String::from_str("channelData"), channel_data));
    pairs.push((String::from_str("replyToId"), opt_str_value(&a.reply_to_id)));
    pairs.push((String::from_str("name"), opt_str_value(&a.name)));
    pairs.push((String::from_str("entities"), JsonValue::Array(clone_json_list(&a.entities))));
    let r = JsonValue::Object(pairs);
    proof {
        crate::json::lemma_json_pair_views(pairs@);
        let target = encode_activity(a@)->Object_0;
        assert forall|j: int| 0 <= j < pairs@.len() implies crate::json::json_pair_views(pairs@)[j]
            == target[j] by {
        }
        assert(crate::json::json_pair_views(pairs@) =~= target);
    }
    r
}

proof fn lemma_account_round_trip(x: ChannelAccountV)
    ensures
        decode_account(encode_account(x)) == Some(x),
{
    reveal_strlit("id");
    reveal_strlit("name");
    assert("id"@.len() == 2);
    assert("name"@.len() == 4);
    assert("id"@ != "name"@);
    let pairs = encode_account(x)->Object_0;
    assert(obj_lookup(pairs, "id"@) == Some(encode_opt_str(x.id))) by {
        reveal_with_fuel(crate::json::key_index_from, 2);
    }
    assert(obj_lookup(pairs, "name"@) == Some(encode_opt_str(x.name))) by {
        reveal_with_fuel(crate::json::key_index_from, 3);
    }
}

proof fn lemma_attachment_round_trip(x: AttachmentV)
    ensures
        decode_attachment(encode_attachment(x)) == Some(x),
{
    reveal_strlit("contentType");
    reveal_strlit("content");
    reveal_strlit("name");
    assert("contentType"@.len() == 11);
    assert("content"@.len() == 7);
    assert("name"@.len() == 4);
    assert("contentType"@ != "content"@);
    assert("contentType"@ != "name"@);
    assert("content"@ != "name"@);
    let pairs = encode_attachment(x)->Object_0;
    assert(obj_lookup(pairs, "contentType"@) == Some(JsonValueV::Text(x.content_type))) by {
        reveal_with_fuel(crate::json::key_index_from, 2);
    }
    assert(obj_lookup(pairs, "content"@) == Some(x.content)) by {
        reveal_with_fuel(crate::json::key_index_from, 3);
    }
    assert(obj_lookup(pairs, "name"@) == Some(encode_opt_str(x.name))) by {
        reveal_with_fuel(crate::json::key_index_from, 4);
    }
}

proof fn lemma_attachments_round_trip(s: Seq<AttachmentV>, i: int)
    requires
        0 <= i <= s.len(),
    ensures
        decode_attachments_from(
            Seq::new(s.len(), |j: int| encode_attachment(s[j])),
            i,
        ) == Some(s.skip(i)),
    decreases s.len() - i,
{
    let items = Seq::new(s.len(), |j: int| encode_attachment(s[j]));
    if i < s.len() {
        lemma_attachment_round_trip(s[i]);
        lemma_attachments_round_trip(s, i + 1);
        assert(seq![s[i]] + s.skip(i + 1) =~= s.skip(i));
    } else {
        assert(s.skip(i) =~= Seq::<AttachmentV>::empty());
    }
}

/// Reading back a rendered activity yields the same activity: the wire
/// encoding loses nothing. Two families of inputs are excluded, where the
/// wire format itself cannot tell them apart from other values: an
/// `Unknown` type spelling one of the four known tags reads back as the
/// known tag, and an explicit null stored in `value` or `channelData` reads
/// back as absent.
#[verifier::rlimit(60)]
pub proof fn lemma_wire_round_trip(a: ActivityV)
    requires
        a.activity_type matches crate::types::ActivityTypeV::Unknown(s) ==> s != "message"@ && s
            != "event"@ && s != "invoke"@ && s != "typing"@,
        a.value != Some(JsonValueV::Null),
        a.channel_data != Some(JsonValueV::Null),
    ensures
        decode_activity(encode_activity(a)) == Some(a),
{
    reveal_strlit("type");
    reveal_strlit("id");
    reveal_strlit("timestamp");
    reveal_strlit("serviceUrl");
    reveal_strlit("channelId");
    reveal_strlit("from");
    reveal_strlit("recipient");
    reveal_strlit("conversation");
    reveal_strlit("text");
    reveal_strlit("attachments");
    reveal_strlit("value");
    reveal_strlit("channelData");
    reveal_strlit("replyToId");
    reveal_strlit("name");
    reveal_strlit("entities");
    crate::types::lemma_activity_type_round_trip(a.activity_type);
    assert("type"@.len() == 4);
    assert("id"@.len() == 2);
    assert("timestamp"@.len() == 9);
    assert("serviceUrl"@.len() == 10);
    assert("channelId"@.len() == 9);
    assert("from"@.len() == 4);
    assert("recipient"@.len() == 9);
    assert("conversation"@.len() == 12);
    assert("text"@.len() == 4);
    assert("attachments"@.len() == 11);
    assert("value"@.len() == 5);
    assert("channelData"@.len() == 11);
    assert("replyToId"@.len() == 9);
    assert("name"@.len() == 4);
    assert("entities"@.len() == 8);
    assert("type"@[0] == 't' && "type"@[1] == 'y');
    assert("from"@[0] == 'f');
    assert("text"@[0] == 't' && "text"@[1] == 'e');
    assert("name"@[0] == 'n');
    assert("timestamp"@[0] == 't');
    assert("channelId"@[0] == 'c');
    assert("recipient"@[0] == 'r' && "recipient"@[2] == 'c');
    assert("replyToId"@[0] == 'r' && "replyToId"@[2] == 'p');
    assert("attachments"@[0] == 'a');
    assert("channelData"@[0] == 'c');
    assert("type"@ != "from"@ && "type"@ != "text"@ && "type"@ != "name"@);
    assert("from"@ != "text"@ && "from"@ != "name"@ && "text"@ != "name"@);
    assert("timestamp"@ != "channelId"@ && "timestamp"@ != "recipient"@ && "timestamp"@
        != "replyToId"@);
    assert("channelId"@ != "recipient"@ && "channelId"@ != "replyToId"@);
    assert("recipient"@ != "replyToId"@);
    assert("attachments"@ != "channelData"@);
    let pairs = encode_activity(a)->Object_0;
    assert(obj_lookup(pairs, "type"@) == Some(
        JsonValueV::Text(type_text(a.activity_type)),
    )) by {
        reveal_with_fuel(crate::json::key_index_from, 2);
    }
    assert(obj_lookup(pairs, "id"@) == Some(encode_opt_str(a.id))) by {
        reveal_with_fuel(crate::json::key_index_from, 3);
    }
    assert(obj_lookup(pairs, "timestamp"@) == Some(encode_opt_str(a.timestamp))) by {
        reveal_with_fuel(crate::json::key_index_from, 4);
    }
    assert(obj_lookup(pairs, "serviceUrl"@) == Some(encode_opt_str(a.service_url))) by {
        reveal_with_fuel(crate::json::key_index_from, 5);
    }
    assert(obj_lookup(pairs, "channelId"@) == Some(encode_opt_str(a.channel_id))) by {
        reveal_with_fuel(crate::json::key_index_from, 6);
    }
    assert(obj_lookup(pairs, "from"@) == Some(
        match a.from {
            Some(x) => encode_account(x),
            None => JsonValueV::Null,
        },
    )) by {
        reveal_with_fuel(crate::json::key_index_from, 7);
    }
    assert(obj_lookup(pairs, "recipient"@) == Some(
        match a.recipient {
            Some(x) => encode_account(x),
            None => JsonValueV::Null,
        },
    )) by {
        reveal_with_fuel(crate::json::key_index_from, 8);
    }
    assert(obj_lookup(pairs, "conversation"@) == Some(
        match a.conversation {
            Some(x) => encode_conversation(x),
            None => JsonValueV::Null,
        },
    )) by {
        reveal_with_fuel(crate::json::key_index_from, 9);
    }
    assert(obj_lookup(pairs, "text"@) == Some(encode_opt_str(a.text))) by {
        reveal_with_fuel(crate::json::key_index_from, 10);
    }
    assert(obj_lookup(pairs, "attachments"@) == Some(
        match a.attachments {
            Some(s) => encode_attachments(s),
            None => JsonValueV::Null,
        },
    )) by {
        reveal_with_fuel(crate::json::key_index_from, 11);
    }
    assert(obj_lookup(pairs, "value"@) == Some(encode_opt_value(a.value))) by {
        reveal_with_fuel(crate::json::key_index_from, 12);
    }
    assert(obj_lookup(pairs, "channelData"@) == Some(encode_opt_value(a.channel_data))) by {
        reveal_with_fuel(crate::json::key_index_from, 13);
    }
    assert(obj_lookup(pairs, "replyToId"@) == Some(encode_opt_str(a.reply_to_id))) by {
        reveal_with_fuel(crate::json::key_index_from, 14);
    }
    assert(obj_lookup(pairs, "name"@) == Some(encode_opt_str(a.name))) by {
        reveal_with_fuel(crate::json::key_index_from, 15);
    }
    assert(obj_lookup(pairs, "entities"@) == Some(JsonValueV::Array(a.entities))) by {
        reveal_with_fuel(crate::json::key_index_from, 16);
    }
    if let Some(x) = a.from {
        lemma_account_round_trip(x);
    }
    if let Some(x) = a.recipient {
        lemma_account_round_trip(x);
    }
    if let Some(x) = a.conversation {
        lemma_account_round_trip(ChannelAccountV { id: x.id, name: x.name });
    }
    if let Some(s) = a.attachments {
        lemma_attachments_round_trip(s, 0);
        assert(s.skip(0) =~= s);
    }
    assert(str_field(pairs, "id"@) == Some(a.id));
    assert(str_field(pairs, "timestamp"@) == Some(a.timestamp));
    assert(str_field(pairs, "serviceUrl"@) == Some(a.service_url));
    assert(str_field(pairs, "channelId"@) == Some(a.channel_id));
    assert(account_field(pairs, "from"@) == Some(a.from));
    assert(account_field(pairs, "recipient"@) == Some(a.recipient));
    assert(conversation_field(pairs, "conversation"@) == Some(a.conversation));
    assert(str_field(pairs, "text"@) == Some(a.text));
    assert(attachments_field(pairs) == Some(a.attachments));
    assert(str_field(pairs, "replyToId"@) == Some(a.reply_to_id));
    assert(str_field(pairs, "name"@) == Some(a.name));
    assert(entities_field(pairs) == Some(a.entities));
    assert(value_field(pairs, "value"@) == a.value);
    assert(value_field(pairs, "channelData"@) == a.channel_data);
}

fn get_opt_str(pairs: &Vec<(String, JsonValue)>, key: &String) -> (r: Result<
    Option<String>,
    DecodeError,
>)
    ensures
        match r {
            Ok(o) => str_field(crate::json::json_pair_views(pairs@), key@) == Some(opt_str_view(o)),
            Err(_) => str_field(crate::json::json_pair_views(pairs@), key@) is None,
        },
{
    match JsonValue::object_get(pairs, key) {
        None => Ok(None),
        Some(JsonValue::Null) => Ok(None),
        Some(JsonValue::Text(s)) => Ok(Some(s.clone())),
        Some(_) => Err(DecodeError),
    }
}

fn get_account(pairs: &Vec<(String, JsonValue)>, key: &String) -> (r: Result<
    Option<ChannelAccount>,
    DecodeError,
>)
    ensures
        match r {
            Ok(o) => account_field(crate::json::json_pair_views(pairs@), key@) == Some(
                opt_account_view(o),
            ),
            Err(_) => account_field(crate::json::json_pair_views(pairs@), key@) is None,
        },
{
    match JsonValue::object_get(pairs, key) {
        None => Ok(None),
        Some(JsonValue::Null) => Ok(None),
        Some(JsonValue::Object(apairs)) => {
            let id = match get_opt_str(apairs, &String::from_str("id")) {
                Ok(v) => v,
                Err(e) => {
                    return Err(e);
                },
            };
            let name = match get_opt_str(apairs, &String::from_str("name")) {
                Ok(v) => v,
                Err(e) => {
                    return Err(e);
                },
            };
            Ok(Some(ChannelAccount { id, name }))
        },
        Some(_) => Err(DecodeError),
    }
}

fn get_conversation(pairs: &Vec<(String, JsonValue)>, key: &String) -> (r: Result<
    Option<ConversationAccount>,
    DecodeError,
>)
    ensures
        match r {
            Ok(o) => conversation_field(crate::json::json_pair_views(pairs@), key@) == Some(
                opt_conversation_view(o),
            ),
            Err(_) => conversation_field(crate::json::json_pair_views(pairs@), key@) is None,
        },
{
    match get_account(pairs, key) {
        Ok(Some(a)) => Ok(
            Some(ConversationAccount { id: a.id, name: a.name }),
        ),
        Ok(None) => Ok(None),
        Err(e) => Err(e),
    }
}

fn get_value(pairs: &Vec<(String, JsonValue)>, key: &String) -> (r: Option<JsonValue>)
    ensures
        opt_json_view(r) == value_field(crate::json::json_pair_views(pairs@), key@),
{
    match JsonValue::object_get(pairs, key) {
        None => None,
        Some(JsonValue::Null) => None,
        Some(v) => Some(clone_json(v)),
    }
}

fn decode_attachment_value(v: &JsonValue) -> (r: Result<Attachment, DecodeError>)
    ensures
        match r {
            Ok(a) => decode_attachment(v@) == Some(a@),
            Err(_) => decode_attachment(v@) is None,
        },
{
    match v {
        JsonValue::Object(pairs) => {
            let ct = match JsonValue::object_get(pairs, &String::from_str("contentType")) {
                Some(JsonValue::Text(s)) => s.clone(),
                _ => {
                    return Err(DecodeError);
                },
            };
            let content = match JsonValue::object_get(pairs, &String::from_str("content")) {
                Some(c) => clone_json(c),
                None => {
                    return Err(DecodeError);
                },
            };
            let name = match get_opt_str(pairs, &String::from_str("name")) {
                Ok(n) => n,
                Err(e) => {
                    return Err(e);
                },
            };
            Ok(Attachment { content_type: ct, content, name })
        },
        _ => Err(DecodeError),
    }
}

fn decode_attachment_list(items: &Vec<JsonValue>, i: usize) -> (r: Result<
    Vec<Attachment>,
    DecodeError,
>)
    requires
        i <= items@.len(),
    ensures
        match r {
            Ok(v) => decode_attachments_from(json_views(items@), i as int) == Some(
                attachments_view(v@),
            ),
            Err(_) => decode_attachments_from(json_views(items@), i as int) is None,
        },
    decreases items@.len() - i,
{
    proof {
        lemma_json_views(items@);
    }
    if i >= items.len() {
        let empty: Vec<Attachment> = Vec::new();
        proof {
            assert(attachments_view(empty@) =~= Seq::<AttachmentV>::empty());
        }
        return Ok(empty);
    }
    let a = match decode_attachment_value(&items[i]) {
        Ok(a) => a,
        Err(e) => {
            return Err(e);
        },
    };
    let mut rest = match decode_attachment_list(items, i + 1) {
        Ok(v) => v,
        Err(e) => {
            return Err(e);
        },
    };
    let ghost av = a@;
    let ghost restv = attachments_view(rest@);
    rest.insert(0, a);
    proof {
        assert(attachments_view(rest@) =~= seq![av] + restv);
    }
    Ok(rest)
}

fn get_attachments(pairs: &Vec<(String, JsonValue)>) -> (r: Result<
    Option<Vec<Attachment>>,
    DecodeError,
>)
    ensures
        match r {
            Ok(o) => attachments_field(crate::json::json_pair_views(pairs@)) == Some(
                opt_attachments_view(o),
            ),
            Err(_) => attachments_field(crate::json::json_pair_views(pairs@)) is None,
        },
{
    match JsonValue::object_get(pairs, &String::from_str("attachments")) {
        None => Ok(None),
        Some(JsonValue::Null) => Ok(None),
        Some(JsonValue::Array(items)) => match decode_attachment_list(items, 0) {
            Ok(atts) => Ok(Some(atts)),
            Err(e) => Err(e),
        },
        Some(_) => Err(DecodeError),
    }
}

fn get_entities(pairs: &Vec<(String, JsonValue)>) -> (r: Result<Vec<JsonValue>, DecodeError>)
    ensures
        match r {
            Ok(v) => entities_field(crate::json::json_pair_views(pairs@)) == Some(json_views(v@)),
            Err(_) => entities_field(crate::json::json_pair_views(pairs@)) is None,
        },
{
    match JsonValue::object_get(pairs, &String::from_str("entities")) {
        None => {
            let empty: Vec<JsonValue> = Vec::new();
            proof {
                assert(json_views(empty@) =~= Seq::<JsonValueV>::empty());
            }
            Ok(empty)
        },
        Some(JsonValue::Array(items)) => Ok(clone_json_list(items)),
        Some(_) => Err(DecodeError),
    }
}

/// The activity a structured payload denotes. Succeeds exactly when
/// `decode_activity` reads a value out of the payload, and returns that
/// value.
pub fn activity_from_value(v: &JsonValue) -> (r: Result<Activity, DecodeError>)
    ensures
        match r {
            Ok(a) => decode_activity(v@) == Some(a@),
            Err(_) => decode_activity(v@) is None,
        },
{
    let pairs = match v {
        JsonValue::Object(pairs) => pairs,
        _ => {
            return Err(DecodeError);
        },
    };
    let ty = match JsonValue::object_get(pairs, &String::from_str("type")) {
        Some(JsonValue::Text(s)) => ActivityType::from_text(s.as_str()),
        _ => {
            return Err(DecodeError);
        },
    };
    let id = match get_opt_str(pairs, &String::from_str("id")) {
        Ok(x) => x,
        Err(e) => {
            return Err(e);
        },
    };
    let timestamp = match get_opt_str(pairs, &String::from_str("timestamp")) {
        Ok(x) => x,
        Err(e) => {
            return Err(e);
        },
    };
    let service_url = match get_opt_str(pairs, &String::from_str("serviceUrl")) {
        Ok(x) => x,
        Err(e) => {
            return Err(e);
        },
    };
    let channel_id = match get_opt_str(pairs, &String::from_str("channelId")) {
        Ok(x) => x,
        Err(e) => {
            return Err(e);
        },
    };
    let from = match get_account(pairs, &String::from_str("from")) {
        Ok(x) => x,
        Err(e) => {
            return Err(e);
        },
    };
    let recipient = match get_account(pairs, &String::from_str("recipient")) {
        Ok(x) => x,
        Err(e) => {
            return Err(e);
        },
    };
    let conversation = match get_conversation(pairs, &String::from_str("conversation")) {
        Ok(x) => x,
        Err(e) => {
            return Err(e);
        },
    };
    let text = match get_opt_str(pairs, &String::from_str("text")) {
        Ok(x) => x,
        Err(e) => {
            return Err(e);
        },
    };
    let attachments = match get_attachments(pairs) {
        Ok(x) => x,
        Err(e) => {
            return Err(e);
        },
    };
    let reply_to_id = match get_opt_str(pairs, &String::from_str("replyToId")) {
        Ok(x) => x,
        Err(e) => {
            return Err(e);
        },
    };
    let name = match get_opt_str(pairs, &String::from_str("name")) {
        Ok(x) => x,
        Err(e) => {
            return Err(e);
        },
    };
    let entities = match get_entities(pairs) {
        Ok(x) => x,
        Err(e) => {
            return Err(e);
        },
    };
    let value = get_value(pairs, &String::from_str("value"));
    let channel_data = get_value(pairs, &String::from_str("channelData"));
    Ok(
        Activity {
            activity_type: ty,
            id,
            timestamp,
            service_url,
            channel_id,
            from,
            recipient,
            conversation,
            text,
            attachments,
            value,
            channel_data,
            reply_to_id,
            name,
            entities,
        },
    )
}

} // verus!
