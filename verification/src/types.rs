//! The wire-level conversational event: the `Activity` schema, its account
//! records, and the activity-type tag whose string form round-trips.

use vstd::prelude::*;
use crate::json::JsonValue;
use crate::json::JsonValueV;
use crate::json::json_views;
use crate::json::obj_lookup_str;
use crate::strutil::str_eq;

verus! {

broadcast use vstd::seq::group_seq_axioms, vstd::std_specs::vec::group_vec_axioms, vstd::string::group_string_axioms;

/// The kind of a conversational event. Tags outside the four known ones are
/// preserved verbatim, never dropped.
#[derive(Debug, PartialEq, Eq)]
pub enum ActivityType {
    Message,
    Event,
    Invoke,
    Typing,
    Unknown(String),
}

/// The mathematical model of an `ActivityType`.
pub enum ActivityTypeV {
    Message,
    Event,
    Invoke,
    Typing,
    Unknown(Seq<char>),
}

impl View for ActivityType {
    type V = ActivityTypeV;

    open spec fn view(&self) -> ActivityTypeV {
        match self {
            ActivityType::Message => ActivityTypeV::Message,
            ActivityType::Event => ActivityTypeV::Event,
            ActivityType::Invoke => ActivityTypeV::Invoke,
            ActivityType::Typing => ActivityTypeV::Typing,
            ActivityType::Unknown(s) => ActivityTypeV::Unknown(s@),
        }
    }
}

/// The string form of an activity type.
pub open spec fn type_text(t: ActivityTypeV) -> Seq<char> {
    match t {
        ActivityTypeV::Message => "message"@,
        ActivityTypeV::Event => "event"@,
        ActivityTypeV::Invoke => "invoke"@,
        ActivityTypeV::Typing => "typing"@,
        ActivityTypeV::Unknown(s) => s,
    }
}

/// The activity type a string denotes: one of the four known tags, or the
/// string itself preserved verbatim.
pub open spec fn type_of_text(s: Seq<char>) -> ActivityTypeV {
    if s == "message"@ {
        ActivityTypeV::Message
    } else if s == "event"@ {
        ActivityTypeV::Event
    } else if s == "invoke"@ {
        ActivityTypeV::Invoke
    } else if s == "typing"@ {
        ActivityTypeV::Typing
    } else {
        ActivityTypeV::Unknown(s)
    }
}

impl ActivityType {
    /// The string form of this activity type.
    pub fn as_str(&self) -> (r: &str)
        ensures
            r@ == type_text(self@),
    {
        match self {
            ActivityType::Message => "message",
            ActivityType::Event => "event",
            ActivityType::Invoke => "invoke",
            ActivityType::Typing => "typing",
            ActivityType::Unknown(s) => s.as_str(),
        }
    }

    /// The activity type denoted by `s`.
    pub fn from_text(s: &str) -> (r: ActivityType)
        ensures
            r@ == type_of_text(s@),
    {
        if str_eq(s, "message") {
            ActivityType::Message
        } else if str_eq(s, "event") {
            ActivityType::Event
        } else if str_eq(s, "invoke") {
            ActivityType::Invoke
        } else if str_eq(s, "typing") {
            ActivityType::Typing
        } else {
            ActivityType::Unknown(s.to_owned())
        }
    }

    /// Whether this is the `Unknown` variant.
    pub fn is_unknown(&self) -> (r: bool)
        ensures
            r == (self@ is Unknown),
    {
        match self {
            ActivityType::Unknown(_) => true,
            _ => false,
        }
    }
}

impl Clone for ActivityType {
    /// A copy whose model is unchanged.
    fn clone(&self) -> (r: Self)
        ensures
            r@ == self@,
    {
        match self {
            ActivityType::Message => ActivityType::Message,
            ActivityType::Event => ActivityType::Event,
            ActivityType::Invoke => ActivityType::Invoke,
            ActivityType::Typing => ActivityType::Typing,
            ActivityType::Unknown(s) => ActivityType::Unknown(s.clone()),
        }
    }
}

/// The string form of an activity type round-trips: reading back the written
/// tag yields the same type. The one family of exceptions is an `Unknown`
/// whose text spells one of the four known tags, which reads back as the
/// known tag.
pub proof fn lemma_activity_type_round_trip(t: ActivityTypeV)
    requires
        t matches ActivityTypeV::Unknown(s) ==> s != "message"@ && s != "event"@ && s
            != "invoke"@ && s != "typing"@,
    ensures
        type_of_text(type_text(t)) == t,
{
    reveal_strlit("message");
    reveal_strlit("event");
    reveal_strlit("invoke");
    reveal_strlit("typing");
    assert("message"@.len() == 7);
    assert("event"@.len() == 5);
    assert("invoke"@[0] == 'i');
    assert("typing"@[0] == 't');
}

/// A participant of a conversation.
#[derive(Debug)]
pub struct ChannelAccount {
    pub id: Option<String>,
    pub name: Option<String>,
}

/// The mathematical model of a `ChannelAccount`.
pub struct ChannelAccountV {
    pub id: Option<Seq<char>>,
    pub name: Option<Seq<char>>,
}

/// A copy of an optional string that reads the same.
pub fn clone_opt_string(o: &Option<String>) -> (r: Option<String>)
    ensures
        opt_str_view(r) == opt_str_view(*o),
{
    match o {
        Some(s) => Some(s.clone()),
        None => None,
    }
}

impl Clone for ChannelAccount {
    /// A copy whose model is unchanged.
    fn clone(&self) -> (r: Self)
        ensures
            r@ == self@,
    {
        ChannelAccount { id: clone_opt_string(&self.id), name: clone_opt_string(&self.name) }
    }
}

/// The conversation an activity belongs to.
#[derive(Debug)]
pub struct ConversationAccount {
    pub id: Option<String>,
    pub name: Option<String>,
}

/// The mathematical model of a `ConversationAccount`.
pub struct ConversationAccountV {
    pub id: Option<Seq<char>>,
    pub name: Option<Seq<char>>,
}

impl Clone for ConversationAccount {
    /// A copy whose model is unchanged.
    fn clone(&self) -> (r: Self)
        ensures
            r@ == self@,
    {
        ConversationAccount { id: clone_opt_string(&self.id), name: clone_opt_string(&self.name) }
    }
}

/// A piece of typed content carried alongside an activity's text.
#[derive(Debug)]
pub struct Attachment {
    pub content_type: String,
    pub content: JsonValue,
    pub name: Option<String>,
}

/// The mathematical model of an `Attachment`.
pub struct AttachmentV {
    pub content_type: Seq<char>,
    pub content: JsonValueV,
    pub name: Option<Seq<char>>,
}

/// The view of an optional owned string.
pub open spec fn opt_str_view(o: Option<String>) -> Option<Seq<char>> {
    match o {
        Some(s) => Some(s@),
        None => None,
    }
}

/// The view of an optional structured value.
pub open spec fn opt_json_view(o: Option<JsonValue>) -> Option<JsonValueV> {
    match o {
        Some(v) => Some(v@),
        None => None,
    }
}

impl View for ChannelAccount {
    type V = ChannelAccountV;

    open spec fn view(&self) -> ChannelAccountV {
        ChannelAccountV { id: opt_str_view(self.id), name: opt_str_view(self.name) }
    }
}

impl View for ConversationAccount {
    type V = ConversationAccountV;

    open spec fn view(&self) -> ConversationAccountV {
        ConversationAccountV { id: opt_str_view(self.id), name: opt_str_view(self.name) }
    }
}

impl View for Attachment {
    type V = AttachmentV;

    open spec fn view(&self) -> AttachmentV {
        AttachmentV {
            content_type: self.content_type@,
            content: self.content@,
            name: opt_str_view(self.name),
        }
    }
}

/// The view of an optional account.
pub open spec fn opt_account_view(o: Option<ChannelAccount>) -> Option<ChannelAccountV> {
    match o {
        Some(a) => Some(a@),
        None => None,
    }
}

/// The view of an optional conversation record.
pub open spec fn opt_conversation_view(o: Option<ConversationAccount>) -> Option<
    ConversationAccountV,
> {
    match o {
        Some(a) => Some(a@),
        None => None,
    }
}

/// The view of an attachment sequence.
pub open spec fn attachments_view(s: Seq<Attachment>) -> Seq<AttachmentV> {
    Seq::new(s.len(), |i: int| s[i]@)
}

/// The view of an optional attachment list.
pub open spec fn opt_attachments_view(o: Option<Vec<Attachment>>) -> Option<Seq<AttachmentV>> {
    match o {
        Some(v) => Some(attachments_view(v@)),
        None => None,
    }
}

/// A wire-level conversational event.
#[derive(Debug)]
pub struct Activity {
    pub activity_type: ActivityType,
    pub id: Option<String>,
    pub timestamp: Option<String>,
    pub service_url: Option<String>,
    pub channel_id: Option<String>,
    pub from: Option<ChannelAccount>,
    pub recipient: Option<ChannelAccount>,
    pub conversation: Option<ConversationAccount>,
    pub text: Option<String>,
    pub attachments: Option<Vec<Attachment>>,
    pub value: Option<JsonValue>,
    pub channel_data: Option<JsonValue>,
    pub reply_to_id: Option<String>,
    pub name: Option<String>,
    pub entities: Vec<JsonValue>,
}

/// The mathematical model of an `Activity`.
pub struct ActivityV {
    pub activity_type: ActivityTypeV,
    pub id: Option<Seq<char>>,
    pub timestamp: Option<Seq<char>>,
    pub service_url: Option<Seq<char>>,
    pub channel_id: Option<Seq<char>>,
    pub from: Option<ChannelAccountV>,
    pub recipient: Option<ChannelAccountV>,
    pub conversation: Option<ConversationAccountV>,
    pub text: Option<Seq<char>>,
    pub attachments: Option<Seq<AttachmentV>>,
    pub value: Option<JsonValueV>,
    pub channel_data: Option<JsonValueV>,
    pub reply_to_id: Option<Seq<char>>,
    pub name: Option<Seq<char>>,
    pub entities: Seq<JsonValueV>,
}

impl View for Activity {
    type V = ActivityV;

    open spec fn view(&self) -> ActivityV {
        ActivityV {
            activity_type: self.activity_type@,
            id: opt_str_view(self.id),
            timestamp: opt_str_view(self.timestamp),
            service_url: opt_str_view(self.service_url),
            channel_id: opt_str_view(self.channel_id),
            from: opt_account_view(self.from),
            recipient: opt_account_view(self.recipient),
            conversation: opt_conversation_view(self.conversation),
            text: opt_str_view(self.text),
            attachments: opt_attachments_view(self.attachments),
            value: opt_json_view(self.value),
            channel_data: opt_json_view(self.channel_data),
            reply_to_id: opt_str_view(self.reply_to_id),
            name: opt_str_view(self.name),
            entities: json_views(self.entities@),
        }
    }
}

/// The model of an activity with every optional field absent and a `Message`
/// type.
pub open spec fn empty_activity() -> ActivityV {
    ActivityV {
        activity_type: ActivityTypeV::Message,
        id: None,
        timestamp: None,
        service_url: None,
        channel_id: None,
        from: None,
        recipient: None,
        conversation: None,
        text: None,
        attachments: None,
        value: None,
        channel_data: None,
        reply_to_id: None,
        name: None,
        entities: Seq::empty(),
    }
}

impl Default for Activity {
    /// An activity with every optional field absent and a `Message` type.
    fn default() -> (r: Self)
        ensures
            r@ == empty_activity(),
    {
        let r = Activity {
            activity_type: ActivityType::Message,
            id: None,
            timestamp: None,
            service_url: None,
            channel_id: None,
            from: None,
            recipient: None,
            conversation: None,
            text: None,
            attachments: None,
            value: None,
            channel_data: None,
            reply_to_id: None,
            name: None,
            entities: Vec::new(),
        };
        proof {
            assert(r@.entities =~= Seq::<JsonValueV>::empty());
        }
        r
    }
}

/// The trace identifier an activity carries: `traceId` then `trace_id` from
/// its channel metadata when that is an object holding a string there,
/// otherwise the conversation id.
pub open spec fn trace_id_of(a: ActivityV) -> Option<Seq<char>> {
    match a.channel_data {
        Some(JsonValueV::Object(pairs)) => match obj_lookup_str(pairs, "traceId"@) {
            Some(t) => Some(t),
            None => match obj_lookup_str(pairs, "trace_id"@) {
                Some(t) => Some(t),
                None => conversation_id_of(a),
            },
        },
        _ => conversation_id_of(a),
    }
}

/// The identifier an activity ended up with; the empty string when absent.
pub open spec fn given_id(a: ActivityV) -> Seq<char> {
    match a.id {
        Some(id) => id,
        None => Seq::empty(),
    }
}

/// The id of the conversation an activity belongs to, when present.
pub open spec fn conversation_id_of(a: ActivityV) -> Option<Seq<char>> {
    match a.conversation {
        Some(c) => c.id,
        None => None,
    }
}

impl Activity {
    /// The activity's own identifier, when present.
    pub fn activity_id(&self) -> (r: Option<&str>)
        ensures
            match r {
                Some(s) => self@.id == Some(s@),
                None => self@.id is None,
            },
    {
        match &self.id {
            Some(s) => Some(s.as_str()),
            None => None,
        }
    }

    /// The trace identifier this activity carries, per `trace_id_of`.
    pub fn tenant_trace_id(&self) -> (r: Option<String>)
        ensures
            opt_str_view(r) == trace_id_of(self@),
    {
        if let Some(JsonValue::Object(pairs)) = &self.channel_data {
            let key_camel = String::from_str("traceId");
            if let Some(t) = JsonValue::object_get_str(pairs, &key_camel) {
                return Some(t);
            }
            let key_snake = String::from_str("trace_id");
            if let Some(t) = JsonValue::object_get_str(pairs, &key_snake) {
                return Some(t);
            }
        }
        match &self.conversation {
            Some(c) => match &c.id {
                Some(id) => Some(id.clone()),
                None => None,
            },
            None => None,
        }
    }
}

} // verus!
