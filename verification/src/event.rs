//! The typed event: the validated, immutable result of the pipeline.
//!
//! A typed event is only ever produced by the validator (or assembled
//! from contents that went through a validating constructor), so its
//! content always satisfies every rule of its kind.

use vstd::prelude::*;
use crate::content::{
    content_discriminant,
    content_wf,
    spec_decode_content,
    spec_serialize_content,
    AnyEventContent,
};
use crate::envelope::{EnvView, RawEnvelope};
use crate::error::InvalidInput;
use crate::identifiers::{valid_event_id, valid_room_id, valid_user_id, EventId, RoomId, UserId};
use crate::json::{obj_push, JsonValue, JVal};
use crate::unsigned::{spec_serialize_unsigned, UnsignedData, UnsignedView};

verus! {

/// Mathematical model of a typed event.
pub struct EventView {
    pub content: crate::content::ContentView,
    pub event_id: Seq<char>,
    pub room_id: Option<Seq<char>>,
    pub sender: Seq<char>,
    pub origin_server_ts: i64,
    pub prev_content: Option<crate::content::ContentView>,
    pub state_key: Option<Seq<char>>,
    pub unsigned: UnsignedView,
}

/// A validated event: typed content plus the envelope metadata, copied
/// across unchanged.
pub struct TypedEvent {
    /// The validated content.
    pub content: AnyEventContent,
    /// The globally unique event identifier.
    pub event_id: EventId,
    /// The room the event belongs to, when the event carries it.
    pub room_id: Option<RoomId>,
    /// The user who sent the event.
    pub sender: UserId,
    /// Timestamp in milliseconds on the originating homeserver when this
    /// event was sent.
    pub origin_server_ts: i64,
    /// The previous content for this state key, if any: an independent
    /// snapshot, validated by the same rules as the content.
    pub prev_content: Option<AnyEventContent>,
    /// The state key for this piece of room state.
    pub state_key: Option<String>,
    /// Homeserver-attached, non-authoritative metadata.
    pub unsigned: UnsignedData,
}

impl View for TypedEvent {
    type V = EventView;

    open spec fn view(&self) -> EventView {
        EventView {
            content: self.content@,
            event_id: self.event_id@,
            room_id: match self.room_id {
                Some(ref r) => Some(r@),
                None => None,
            },
            sender: self.sender@,
            origin_server_ts: self.origin_server_ts,
            prev_content: match self.prev_content {
                Some(ref p) => Some(p@),
                None => None,
            },
            state_key: match self.state_key {
                Some(ref s) => Some(s@),
                None => None,
            },
            unsigned: self.unsigned@,
        }
    }
}

/// Every invariant of a typed event: the content (and the previous
/// content, which shares its discriminant) satisfies its kind's rules,
/// the identifiers were accepted by the validator, and the timestamp is
/// non-negative.
pub open spec fn event_wf(e: EventView) -> bool {
    &&& content_wf(e.content)
    &&& match e.prev_content {
        Some(p) => content_wf(p) && content_discriminant(p) == content_discriminant(e.content),
        None => true,
    }
    &&& valid_event_id(e.event_id)
    &&& valid_user_id(e.sender)
    &&& match e.room_id {
        Some(r) => valid_room_id(r),
        None => true,
    }
    &&& e.origin_server_ts >= 0
}

/// Validation of a whole raw envelope: decode the content (and the
/// previous content, by the same rules) under the envelope's
/// discriminant, then copy every metadata field across unchanged.
pub open spec fn spec_validate(env: EnvView) -> Result<EventView, InvalidInput> {
    match spec_decode_content(env.event_type, env.content) {
        Err(e) => Err(e),
        Ok(c) => match env.prev_content {
            None => Ok(
                EventView {
                    content: c,
                    event_id: env.event_id,
                    room_id: env.room_id,
                    sender: env.sender,
                    origin_server_ts: env.origin_server_ts,
                    prev_content: None,
                    state_key: env.state_key,
                    unsigned: env.unsigned,
                },
            ),
            Some(pj) => match spec_decode_content(env.event_type, pj) {
                Err(e) => Err(e),
                Ok(p) => Ok(
                    EventView {
                        content: c,
                        event_id: env.event_id,
                        room_id: env.room_id,
                        sender: env.sender,
                        origin_server_ts: env.origin_server_ts,
                        prev_content: Some(p),
                        state_key: env.state_key,
                        unsigned: env.unsigned,
                    },
                ),
            },
        },
    }
}

impl TypedEvent {
    /// Every invariant of this event holds.
    pub open spec fn wf(&self) -> bool {
        event_wf(self@)
    }

    /// Validate and normalize a raw envelope into a typed event. This is
    /// the only place content rules are enforced; it fails exactly when
    /// the content (or previous content) breaks a rule of its kind, and
    /// never partially: the error says why.
    pub fn validate(env: RawEnvelope) -> (r: Result<TypedEvent, InvalidInput>)
        ensures
            match spec_validate(env@) {
                Ok(ev) => r matches Ok(t) && t@ == ev && (env.wf() ==> t.wf()),
                Err(e) => r matches Err(e2) && e2 == e,
            },
    {
        proof {
            crate::content::lemma_decode_content_wf(env@.event_type, env@.content);
        }
        let content = match AnyEventContent::decode(env.event_type.as_str(), &env.content) {
            Ok(c) => c,
            Err(e) => {
                return Err(e);
            },
        };
        let prev_content = match env.prev_content {
            None => None,
            Some(ref pj) => {
                proof {
                    crate::content::lemma_decode_content_wf(env@.event_type, pj@);
                }
                match AnyEventContent::decode(env.event_type.as_str(), pj) {
                    Ok(p) => Some(p),
                    Err(e) => {
                        return Err(e);
                    },
                }
            },
        };
        Ok(
            TypedEvent {
                content,
                event_id: env.event_id,
                room_id: env.room_id,
                sender: env.sender,
                origin_server_ts: env.origin_server_ts,
                prev_content,
                state_key: env.state_key,
                unsigned: env.unsigned,
            },
        )
    }
}

/// The field list of a serialized event. Metadata fields are always
/// written; optional fields are omitted when absent, and `unsigned` when
/// empty, never written as null or `{}`. The `type` field is the
/// content's own discriminant, so tag and content shape cannot disagree.
pub open spec fn event_fields(e: EventView) -> Seq<(Seq<char>, JVal)> {
    let f0 = Seq::<(Seq<char>, JVal)>::empty().push(
        ("content"@, spec_serialize_content(e.content)),
    ).push(("event_id"@, JVal::Str(e.event_id))).push(
        ("origin_server_ts"@, JVal::Int(e.origin_server_ts)),
    );
    let f1 = match e.prev_content {
        Some(p) => f0.push(("prev_content"@, spec_serialize_content(p))),
        None => f0,
    };
    let f2 = match e.room_id {
        Some(r) => f1.push(("room_id"@, JVal::Str(r))),
        None => f1,
    };
    let f3 = f2.push(("sender"@, JVal::Str(e.sender)));
    let f4 = match e.state_key {
        Some(s) => f3.push(("state_key"@, JVal::Str(s))),
        None => f3,
    };
    let f5 = f4.push(("type"@, JVal::Str(content_discriminant(e.content))));
    if e.unsigned.is_empty() {
        f5
    } else {
        f5.push(("unsigned"@, spec_serialize_unsigned(e.unsigned)))
    }
}

/// The canonical wire form of a typed event.
pub open spec fn spec_serialize_event(e: EventView) -> JVal {
    JVal::Obj(event_fields(e))
}

/// The first character and the length of each envelope key: enough to
/// tell any two of them apart.
pub proof fn lemma_envelope_key_chars()
    ensures
        "content"@.len() == 7,
        "content"@[0] == 'c',
        "event_id"@.len() == 8,
        "event_id"@[0] == 'e',
        "origin_server_ts"@.len() == 16,
        "origin_server_ts"@[0] == 'o',
        "prev_content"@.len() == 12,
        "prev_content"@[0] == 'p',
        "room_id"@.len() == 7,
        "room_id"@[0] == 'r',
        "sender"@.len() == 6,
        "sender"@[0] == 's',
        "state_key"@.len() == 9,
        "state_key"@[0] == 's',
        "sender"@ != "state_key"@,
        "type"@.len() == 4,
        "type"@[0] == 't',
        "unsigned"@.len() == 8,
        "unsigned"@[0] == 'u',
{
    reveal_strlit("content");
    reveal_strlit("event_id");
    reveal_strlit("origin_server_ts");
    reveal_strlit("prev_content");
    reveal_strlit("room_id");
    reveal_strlit("sender");
    reveal_strlit("state_key");
    reveal_strlit("type");
    reveal_strlit("unsigned");
}

/// Serialized output never carries an `unsigned` key when the unsigned
/// data is empty, and never a `prev_content` key when no previous content
/// was supplied.
pub proof fn lemma_serialize_omits_absent(e: EventView)
    ensures
        e.unsigned.is_empty() ==> !crate::json::jval_has(spec_serialize_event(e), "unsigned"@),
        e.prev_content is None ==> !crate::json::jval_has(
            spec_serialize_event(e),
            "prev_content"@,
        ),
{
    broadcast use crate::json::lemma_obj_lookup_push;

    lemma_envelope_key_chars();
    assert(crate::json::obj_lookup(Seq::<(Seq<char>, JVal)>::empty(), "unsigned"@) is None);
    assert(crate::json::obj_lookup(Seq::<(Seq<char>, JVal)>::empty(), "prev_content"@) is None);
}

impl TypedEvent {
    /// Serialize this event to its canonical wire JSON.
    pub fn serialize(&self) -> (v: JsonValue)
        ensures
            v@ == spec_serialize_event(self@),
    {
        let mut fields: Vec<(String, JsonValue)> = Vec::new();
        proof {
            assert(crate::json::view_obj(fields@) =~= Seq::empty());
        }
        obj_push(&mut fields, "content", self.content.to_json());
        obj_push(&mut fields, "event_id", JsonValue::Str(self.event_id.as_str().to_owned()));
        obj_push(&mut fields, "origin_server_ts", JsonValue::Int(self.origin_server_ts));
        if let Some(ref p) = self.prev_content {
            obj_push(&mut fields, "prev_content", p.to_json());
        }
        if let Some(ref r) = self.room_id {
            obj_push(&mut fields, "room_id", JsonValue::Str(r.as_str().to_owned()));
        }
        obj_push(&mut fields, "sender", JsonValue::Str(self.sender.as_str().to_owned()));
        if let Some(ref s) = self.state_key {
            obj_push(&mut fields, "state_key", JsonValue::Str(s.clone()));
        }
        obj_push(&mut fields, "type", JsonValue::Str(self.content.event_type_str().to_owned()));
        if !self.unsigned.is_empty() {
            obj_push(&mut fields, "unsigned", self.unsigned.to_json());
        }
        JsonValue::Obj(fields)
    }
}

} // verus!
