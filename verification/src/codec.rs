//! The wire codec: a deferred-validation container around one wire event.
//!
//! An `EventJson` holds the structurally parsed JSON of one event. The
//! caller chooses when (or whether) to pay for validation: `get_raw`
//! inspects the JSON without validating, `deserialize` runs the whole
//! structural-parse-then-validate pipeline.

use vstd::prelude::*;
use crate::envelope::{spec_parse_envelope, RawEnvelope};
use crate::error::EventError;
use crate::event::{spec_validate, EventView, TypedEvent};
use crate::json::{JsonValue, JVal};

verus! {

/// The whole decoding pipeline on one JSON value: structural parse, then
/// validation. The two error kinds stay distinct.
pub open spec fn spec_deserialize(j: JVal) -> Result<EventView, EventError> {
    match spec_parse_envelope(j) {
        Err(e) => Err(EventError::Decode(e)),
        Ok(env) => match spec_validate(env) {
            Err(e) => Err(EventError::Invalid(e)),
            Ok(ev) => Ok(ev),
        },
    }
}

/// Round trip: serializing a well-formed typed event and then decoding
/// and validating the result yields the event back, equal in every
/// observable field.
pub proof fn lemma_round_trip(e: EventView)
    requires
        crate::event::event_wf(e),
    ensures
        spec_deserialize(crate::event::spec_serialize_event(e)) == Ok::<_, EventError>(e),
{
    broadcast use crate::json::lemma_obj_lookup_push;

    crate::event::lemma_envelope_key_chars();
    crate::content::lemma_content_round_trip(e.content);
    if let Some(p) = e.prev_content {
        crate::content::lemma_content_round_trip(p);
    }
    reveal_strlit("age");
    reveal_strlit("transaction_id");
    assert("age"@.len() == 3);
    assert("transaction_id"@.len() == 14);
    let empty = Seq::<(Seq<char>, JVal)>::empty();
    assert(crate::json::obj_lookup(empty, "type"@) is None);
    assert(crate::json::obj_lookup(empty, "content"@) is None);
    assert(crate::json::obj_lookup(empty, "event_id"@) is None);
    assert(crate::json::obj_lookup(empty, "sender"@) is None);
    assert(crate::json::obj_lookup(empty, "origin_server_ts"@) is None);
    assert(crate::json::obj_lookup(empty, "room_id"@) is None);
    assert(crate::json::obj_lookup(empty, "state_key"@) is None);
    assert(crate::json::obj_lookup(empty, "prev_content"@) is None);
    assert(crate::json::obj_lookup(empty, "unsigned"@) is None);
    assert(crate::json::obj_lookup(empty, "age"@) is None);
    assert(crate::json::obj_lookup(empty, "transaction_id"@) is None);
    let j = crate::event::spec_serialize_event(e);
    let disc = crate::content::content_discriminant(e.content);
    let env = crate::envelope::EnvView {
        event_type: disc,
        content: crate::content::spec_serialize_content(e.content),
        event_id: e.event_id,
        room_id: e.room_id,
        sender: e.sender,
        origin_server_ts: e.origin_server_ts,
        prev_content: match e.prev_content {
            Some(p) => Some(crate::content::spec_serialize_content(p)),
            None => None,
        },
        state_key: e.state_key,
        unsigned: e.unsigned,
    };
    assert(spec_parse_envelope(j) == Ok::<_, crate::error::DecodeError>(env));
    assert(spec_validate(env) == Ok::<_, crate::error::InvalidInput>(e));
}

/// A wire event held as raw JSON, with validation deferred until asked
/// for.
pub struct EventJson {
    raw: JsonValue,
}

impl View for EventJson {
    type V = JVal;

    closed spec fn view(&self) -> JVal {
        self.raw@
    }
}

impl EventJson {
    /// Wrap an already-parsed JSON value.
    pub fn from_value(raw: JsonValue) -> (r: EventJson)
        ensures
            r@ == raw@,
    {
        EventJson { raw }
    }

    /// The underlying JSON value, available whether or not it would
    /// validate: a caller can inspect or re-route an event whose content
    /// does not validate without losing the original.
    pub fn get_raw(&self) -> (r: &JsonValue)
        ensures
            r@ == self@,
    {
        &self.raw
    }

    /// Run the pipeline: structural parse into a raw envelope, then
    /// validation into a typed event. Fails with a decode error when the
    /// envelope is malformed and with a validation error when a content
    /// rule is broken, never confusing the two.
    pub fn deserialize(&self) -> (r: Result<TypedEvent, EventError>)
        ensures
            match spec_deserialize(self@) {
                Ok(ev) => r matches Ok(t) && t@ == ev && t.wf(),
                Err(e) => r matches Err(e2) && e2 == e,
            },
    {
        let env = match RawEnvelope::parse(&self.raw) {
            Ok(env) => env,
            Err(e) => {
                return Err(EventError::Decode(e));
            },
        };
        match TypedEvent::validate(env) {
            Ok(t) => Ok(t),
            Err(e) => Err(EventError::Invalid(e)),
        }
    }
}

} // verus!
