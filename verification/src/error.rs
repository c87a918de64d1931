//! Error types of the two pipeline phases.
//!
//! A structural decode error means the wire value is not a well-shaped
//! envelope; a validation error means a well-shaped content value breaks a
//! rule of its kind. The two are never conflated, so a caller can tell a
//! malformed message from a rule-breaking one.

use vstd::prelude::*;

verus! {

/// The wire value is not a structurally valid envelope.
#[derive(Clone, Copy, Debug, PartialEq, Eq, Structural)]
pub enum DecodeError {
    /// The top-level value is not a JSON object.
    NotAnObject,
    /// The `type` field is missing.
    MissingType,
    /// The `type` field is not a string.
    BadType,
    /// The `content` field is missing.
    MissingContent,
    /// The `content` field is not an object.
    BadContent,
    /// The `event_id` field is missing.
    MissingEventId,
    /// The `event_id` field is not a string or not a valid event id.
    BadEventId,
    /// The `sender` field is missing.
    MissingSender,
    /// The `sender` field is not a string or not a valid user id.
    BadSender,
    /// The `origin_server_ts` field is missing.
    MissingTimestamp,
    /// The `origin_server_ts` field is not a non-negative integer.
    BadTimestamp,
    /// The `room_id` field is present but not a valid room id string.
    BadRoomId,
    /// The `state_key` field is present but not a string.
    BadStateKey,
    /// The `prev_content` field is present but not an object.
    BadPrevContent,
    /// The `unsigned` field is present but not a well-shaped object.
    BadUnsigned,
}

impl DecodeError {
    /// The reason, as the message a caller can show.
    pub open spec fn spec_message(&self) -> Seq<char> {
        match self {
            DecodeError::NotAnObject => "event is not a JSON object"@,
            DecodeError::MissingType => "missing `type` field"@,
            DecodeError::BadType => "`type` field is not a string"@,
            DecodeError::MissingContent => "missing `content` field"@,
            DecodeError::BadContent => "`content` field is not an object"@,
            DecodeError::MissingEventId => "missing `event_id` field"@,
            DecodeError::BadEventId => "`event_id` field is not a valid event id"@,
            DecodeError::MissingSender => "missing `sender` field"@,
            DecodeError::BadSender => "`sender` field is not a valid user id"@,
            DecodeError::MissingTimestamp => "missing `origin_server_ts` field"@,
            DecodeError::BadTimestamp => "`origin_server_ts` field is not a non-negative integer"@,
            DecodeError::BadRoomId => "`room_id` field is not a valid room id"@,
            DecodeError::BadStateKey => "`state_key` field is not a string"@,
            DecodeError::BadPrevContent => "`prev_content` field is not an object"@,
            DecodeError::BadUnsigned => "`unsigned` field is not a well-shaped object"@,
        }
    }

    /// A human-readable description of the error.
    pub fn message(&self) -> (r: String)
        ensures
            r@ == self.spec_message(),
    {
        match self {
            DecodeError::NotAnObject => "event is not a JSON object".to_owned(),
            DecodeError::MissingType => "missing `type` field".to_owned(),
            DecodeError::BadType => "`type` field is not a string".to_owned(),
            DecodeError::MissingContent => "missing `content` field".to_owned(),
            DecodeError::BadContent => "`content` field is not an object".to_owned(),
            DecodeError::MissingEventId => "missing `event_id` field".to_owned(),
            DecodeError::BadEventId => "`event_id` field is not a valid event id".to_owned(),
            DecodeError::MissingSender => "missing `sender` field".to_owned(),
            DecodeError::BadSender => "`sender` field is not a valid user id".to_owned(),
            DecodeError::MissingTimestamp => "missing `origin_server_ts` field".to_owned(),
            DecodeError::BadTimestamp => "`origin_server_ts` field is not a non-negative integer".to_owned(),
            DecodeError::BadRoomId => "`room_id` field is not a valid room id".to_owned(),
            DecodeError::BadStateKey => "`state_key` field is not a string".to_owned(),
            DecodeError::BadPrevContent => "`prev_content` field is not an object".to_owned(),
            DecodeError::BadUnsigned => "`unsigned` field is not a well-shaped object".to_owned(),
        }
    }
}

/// A structurally well-shaped content value violates a rule of its kind.
#[derive(Clone, Copy, Debug, PartialEq, Eq, Structural)]
pub enum InvalidInput {
    /// A room name exceeds 255 bytes.
    NameTooLong,
    /// A content value is not a JSON object.
    NotAnObject,
    /// The `name` field is present but neither a string nor null.
    BadNameField,
    /// The `user_ids` field is missing or not an array of strings.
    BadUserIdsField,
    /// The `url` field is missing or not a string.
    BadUrlField,
    /// The `info` field is present but not a well-shaped object.
    BadInfoField,
    /// The `join_rule` field is missing or not a string.
    BadJoinRuleField,
    /// The `join_rule` field names no known rule.
    UnknownJoinRule,
}

impl InvalidInput {
    /// The reason, as the message a caller can show.
    pub open spec fn spec_reason(&self) -> Seq<char> {
        match self {
            InvalidInput::NameTooLong => "a room name cannot be more than 255 bytes"@,
            InvalidInput::NotAnObject => "content is not a JSON object"@,
            InvalidInput::BadNameField => "`name` field is neither a string nor null"@,
            InvalidInput::BadUserIdsField => "`user_ids` field is not an array of strings"@,
            InvalidInput::BadUrlField => "`url` field is not a string"@,
            InvalidInput::BadInfoField => "`info` field is not a well-shaped object"@,
            InvalidInput::BadJoinRuleField => "`join_rule` field is not a string"@,
            InvalidInput::UnknownJoinRule => "`join_rule` field names no known rule"@,
        }
    }

    /// A human-readable description of why validation failed.
    pub fn reason(&self) -> (r: String)
        ensures
            r@ == self.spec_reason(),
    {
        match self {
            InvalidInput::NameTooLong => "a room name cannot be more than 255 bytes".to_owned(),
            InvalidInput::NotAnObject => "content is not a JSON object".to_owned(),
            InvalidInput::BadNameField => "`name` field is neither a string nor null".to_owned(),
            InvalidInput::BadUserIdsField => "`user_ids` field is not an array of strings".to_owned(),
            InvalidInput::BadUrlField => "`url` field is not a string".to_owned(),
            InvalidInput::BadInfoField => "`info` field is not a well-shaped object".to_owned(),
            InvalidInput::BadJoinRuleField => "`join_rule` field is not a string".to_owned(),
            InvalidInput::UnknownJoinRule => "`join_rule` field names no known rule".to_owned(),
        }
    }
}

/// Either of the two error kinds, as returned by deferred decoding.
#[derive(Clone, Copy, Debug, PartialEq, Eq, Structural)]
pub enum EventError {
    /// The envelope itself is malformed.
    Decode(DecodeError),
    /// The envelope is fine but its content violates a rule.
    Invalid(InvalidInput),
}

/// An identifier string was rejected by the identifier validator.
#[derive(Clone, Copy, Debug, PartialEq, Eq, Structural)]
pub enum IdError {
    InvalidUserId,
    InvalidRoomId,
    InvalidEventId,
}

} // verus!
