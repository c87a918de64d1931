//! The raw envelope: one wire event after the structural parse, before
//! any content validation.
//!
//! Structural parsing succeeds whenever the required fields are there with
//! the right JSON types, whatever the content holds: content-level rules
//! are deferred to the validator.

use vstd::prelude::*;
use crate::error::DecodeError;
use crate::identifiers::{valid_event_id, valid_room_id, valid_user_id, EventId, RoomId, UserId};
use crate::json::{jval_get, spec_opt_str, spec_req_int, spec_req_str, FieldErr, JsonValue, JVal};
use crate::unsigned::{spec_parse_unsigned, UnsignedData, UnsignedView};

verus! {

/// Mathematical model of a raw envelope.
pub struct EnvView {
    pub event_type: Seq<char>,
    pub content: JVal,
    pub event_id: Seq<char>,
    pub room_id: Option<Seq<char>>,
    pub sender: Seq<char>,
    pub origin_server_ts: i64,
    pub prev_content: Option<JVal>,
    pub state_key: Option<Seq<char>>,
    pub unsigned: UnsignedView,
}

/// One wire event, structurally parsed and not yet validated.
pub struct RawEnvelope {
    /// The discriminant naming the event's kind.
    pub event_type: String,
    /// The content, untyped: its shape is the validator's business.
    pub content: JsonValue,
    /// The globally unique event identifier.
    pub event_id: EventId,
    /// The room the event belongs to, when the event carries it.
    pub room_id: Option<RoomId>,
    /// The user who sent the event.
    pub sender: UserId,
    /// Timestamp in milliseconds on the originating homeserver when this
    /// event was sent.
    pub origin_server_ts: i64,
    /// The previous content for this state key, if any, untyped.
    pub prev_content: Option<JsonValue>,
    /// The state key for this piece of room state.
    pub state_key: Option<String>,
    /// Homeserver-attached, non-authoritative metadata.
    pub unsigned: UnsignedData,
}

impl View for RawEnvelope {
    type V = EnvView;

    open spec fn view(&self) -> EnvView {
        EnvView {
            event_type: self.event_type@,
            content: self.content@,
            event_id: self.event_id@,
            room_id: match self.room_id {
                Some(ref r) => Some(r@),
                None => None,
            },
            sender: self.sender@,
            origin_server_ts: self.origin_server_ts,
            prev_content: match self.prev_content {
                Some(ref p) => Some(p@),
                None => None,
            },
            state_key: match self.state_key {
                Some(ref s) => Some(s@),
                None => None,
            },
            unsigned: self.unsigned@,
        }
    }
}

/// The structural envelope parse: which raw envelope a JSON value holds,
/// or exactly why it holds none. Required fields must be there with the
/// right types and valid identifiers; optional fields may be absent (and
/// `room_id`, `state_key`, `prev_content` also null); `unsigned` defaults
/// to empty; unknown fields are ignored.
pub open spec fn spec_parse_envelope(j: JVal) -> Result<EnvView, DecodeError> {
    if !(j is Obj) {
        Err(DecodeError::NotAnObject)
    } else {
        match spec_req_str(j, "type"@) {
            Err(FieldErr::Missing) => Err(DecodeError::MissingType),
            Err(FieldErr::WrongType) => Err(DecodeError::BadType),
            Ok(event_type) => match jval_get(j, "content"@) {
                None => Err(DecodeError::MissingContent),
                Some(content) => if !(content is Obj) {
                    Err(DecodeError::BadContent)
                } else {
                    match spec_req_str(j, "event_id"@) {
                        Err(FieldErr::Missing) => Err(DecodeError::MissingEventId),
                        Err(FieldErr::WrongType) => Err(DecodeError::BadEventId),
                        Ok(event_id) => if !valid_event_id(event_id) {
                            Err(DecodeError::BadEventId)
                        } else {
                            match spec_req_str(j, "sender"@) {
                                Err(FieldErr::Missing) => Err(DecodeError::MissingSender),
                                Err(FieldErr::WrongType) => Err(DecodeError::BadSender),
                                Ok(sender) => if !valid_user_id(sender) {
                                    Err(DecodeError::BadSender)
                                } else {
                                    match spec_req_int(j, "origin_server_ts"@) {
                                        Err(FieldErr::Missing) => Err(
                                            DecodeError::MissingTimestamp,
                                        ),
                                        Err(FieldErr::WrongType) => Err(DecodeError::BadTimestamp),
                                        Ok(ts) => if ts < 0 {
                                            Err(DecodeError::BadTimestamp)
                                        } else {
                                            spec_parse_envelope_rest(
                                                j,
                                                event_type,
                                                content,
                                                event_id,
                                                sender,
                                                ts,
                                            )
                                        },
                                    }
                                },
                            }
                        },
                    }
                },
            },
        }
    }
}

/// The optional half of the envelope parse: `room_id`, `state_key`,
/// `prev_content` and `unsigned`.
pub open spec fn spec_parse_envelope_rest(
    j: JVal,
    event_type: Seq<char>,
    content: JVal,
    event_id: Seq<char>,
    sender: Seq<char>,
    ts: i64,
) -> Result<EnvView, DecodeError> {
    match spec_opt_str(j, "room_id"@) {
        Err(_) => Err(DecodeError::BadRoomId),
        Ok(room_id) => if !(match room_id {
            Some(r) => valid_room_id(r),
            None => true,
        }) {
            Err(DecodeError::BadRoomId)
        } else {
            match spec_opt_str(j, "state_key"@) {
                Err(_) => Err(DecodeError::BadStateKey),
                Ok(state_key) => match spec_parse_prev(j) {
                    Err(e) => Err(e),
                    Ok(prev) => match spec_parse_unsigned(j) {
                        Err(e) => Err(e),
                        Ok(unsigned) => Ok(
                            EnvView {
                                event_type,
                                content,
                                event_id,
                                room_id,
                                sender,
                                origin_server_ts: ts,
                                prev_content: prev,
                                state_key,
                                unsigned,
                            },
                        ),
                    },
                },
            }
        },
    }
}

/// The `prev_content` field: absent and null mean "none"; anything but an
/// object is malformed.
pub open spec fn spec_parse_prev(j: JVal) -> Result<Option<JVal>, DecodeError> {
    match jval_get(j, "prev_content"@) {
        None => Ok(None),
        Some(JVal::Null) => Ok(None),
        Some(p) => if p is Obj {
            Ok(Some(p))
        } else {
            Err(DecodeError::BadPrevContent)
        },
    }
}

impl RawEnvelope {
    /// Every identifier of a parsed envelope was accepted by the
    /// identifier validator.
    pub open spec fn wf(&self) -> bool {
        &&& valid_event_id(self.event_id@)
        &&& valid_user_id(self.sender@)
        &&& match self.room_id {
            Some(ref r) => valid_room_id(r@),
            None => true,
        }
        &&& self.origin_server_ts >= 0
    }

    /// Structurally parse one wire event. Succeeds exactly on values
    /// that hold every required field with the right type, however the
    /// content itself looks inside.
    pub fn parse(v: &JsonValue) -> (r: Result<RawEnvelope, DecodeError>)
        ensures
            match spec_parse_envelope(v@) {
                Ok(env) => r matches Ok(re) && re@ == env && re.wf(),
                Err(e) => r matches Err(e2) && e2 == e,
            },
    {
        if !matches!(v, JsonValue::Obj(_)) {
            return Err(DecodeError::NotAnObject);
        }
        let event_type = match v.get_req_str("type") {
            Ok(t) => t,
            Err(FieldErr::Missing) => {
                return Err(DecodeError::MissingType);
            },
            Err(FieldErr::WrongType) => {
                return Err(DecodeError::BadType);
            },
        };
        let content = match v.get("content") {
            None => {
                return Err(DecodeError::MissingContent);
            },
            Some(c) => {
                if !matches!(c, JsonValue::Obj(_)) {
                    return Err(DecodeError::BadContent);
                }
                c.deep_clone()
            },
        };
        let event_id = match v.get_req_str("event_id") {
            Ok(s) => match EventId::parse(s) {
                Ok(id) => id,
                Err(_) => {
                    return Err(DecodeError::BadEventId);
                },
            },
            Err(FieldErr::Missing) => {
                return Err(DecodeError::MissingEventId);
            },
            Err(FieldErr::WrongType) => {
                return Err(DecodeError::BadEventId);
            },
        };
        let sender = match v.get_req_str("sender") {
            Ok(s) => match UserId::parse(s) {
                Ok(id) => id,
                Err(_) => {
                    return Err(DecodeError::BadSender);
                },
            },
            Err(FieldErr::Missing) => {
                return Err(DecodeError::MissingSender);
            },
            Err(FieldErr::WrongType) => {
                return Err(DecodeError::BadSender);
            },
        };
        let origin_server_ts = match v.get_req_int("origin_server_ts") {
            Ok(ts) => {
                if ts < 0 {
                    return Err(DecodeError::BadTimestamp);
                }
                ts
            },
            Err(FieldErr::Missing) => {
                return Err(DecodeError::MissingTimestamp);
            },
            Err(FieldErr::WrongType) => {
                return Err(DecodeError::BadTimestamp);
            },
        };
        let room_id = match v.get_opt_str("room_id") {
            Ok(None) => None,
            Ok(Some(s)) => match RoomId::parse(s) {
                Ok(id) => Some(id),
                Err(_) => {
                    return Err(DecodeError::BadRoomId);
                },
            },
            Err(_) => {
                return Err(DecodeError::BadRoomId);
            },
        };
        let state_key = match v.get_opt_str("state_key") {
            Ok(sk) => sk,
            Err(_) => {
                return Err(DecodeError::BadStateKey);
            },
        };
        let prev_content = match v.get("prev_content") {
            None => None,
            Some(JsonValue::Null) => None,
            Some(p) => {
                if !matches!(p, JsonValue::Obj(_)) {
                    return Err(DecodeError::BadPrevContent);
                }
                Some(p.deep_clone())
            },
        };
        let unsigned = match UnsignedData::from_envelope(v) {
            Ok(u) => u,
            Err(e) => {
                return Err(e);
            },
        };
        Ok(
            RawEnvelope {
                event_type,
                content,
                event_id,
                room_id,
                sender,
                origin_server_ts,
                prev_content,
                state_key,
                unsigned,
            },
        )
    }
}

} // verus!
