//! Opaque, validated identifier strings.
//!
//! User, room and event identifiers are carried as plain strings whose
//! format was checked by the identifier validator. What counts as a valid
//! identifier is the validator's business, so it is only named here, never
//! restated.

use vstd::prelude::*;
use crate::error::IdError;

verus! {

/// Whether the identifier validator accepts `s` as a user id.
pub uninterp spec fn valid_user_id(s: Seq<char>) -> bool;

/// Whether the identifier validator accepts `s` as a room id.
pub uninterp spec fn valid_room_id(s: Seq<char>) -> bool;

/// Whether the identifier validator accepts `s` as an event id.
pub uninterp spec fn valid_event_id(s: Seq<char>) -> bool;

/// Relies on `ruma_identifiers::UserId`: `<&UserId>::try_from` checks the
/// string against the user id grammar and accepts or rejects it on the
/// string's characters alone.
#[verifier::external_body]
fn check_user_id(s: &str) -> (r: bool)
    ensures
        r == valid_user_id(s@),
{
    <&ruma_identifiers::UserId as std::convert::TryFrom<&str>>::try_from(s).is_ok()
}

/// Relies on `ruma_identifiers::RoomId`: `<&RoomId>::try_from` checks the
/// string against the room id grammar and accepts or rejects it on the
/// string's characters alone.
#[verifier::external_body]
fn check_room_id(s: &str) -> (r: bool)
    ensures
        r == valid_room_id(s@),
{
    <&ruma_identifiers::RoomId as std::convert::TryFrom<&str>>::try_from(s).is_ok()
}

/// Relies on `ruma_identifiers::EventId`: `<&EventId>::try_from` checks the
/// string against the event id grammar and accepts or rejects it on the
/// string's characters alone.
#[verifier::external_body]
fn check_event_id(s: &str) -> (r: bool)
    ensures
        r == valid_event_id(s@),
{
    <&ruma_identifiers::EventId as std::convert::TryFrom<&str>>::try_from(s).is_ok()
}

/// A validated user identifier.
pub struct UserId {
    id: String,
}

impl View for UserId {
    type V = Seq<char>;

    closed spec fn view(&self) -> Seq<char> {
        self.id@
    }
}

impl UserId {
    /// A `UserId` always holds a string the validator accepted.
    pub open spec fn wf(&self) -> bool {
        valid_user_id(self@)
    }

    /// Validate a user identifier string.
    pub fn parse(s: String) -> (r: Result<UserId, IdError>)
        ensures
            r is Ok <==> valid_user_id(s@),
            r matches Ok(u) ==> u@ == s@ && u.wf(),
            r matches Err(e) ==> e == IdError::InvalidUserId,
    {
        if check_user_id(s.as_str()) {
            Ok(UserId { id: s })
        } else {
            Err(IdError::InvalidUserId)
        }
    }

    /// The identifier as a string.
    pub fn as_str(&self) -> (r: &str)
        ensures
            r@ == self@,
    {
        self.id.as_str()
    }
}

/// A validated room identifier.
pub struct RoomId {
    id: String,
}

impl View for RoomId {
    type V = Seq<char>;

    closed spec fn view(&self) -> Seq<char> {
        self.id@
    }
}

impl RoomId {
    /// A `RoomId` always holds a string the validator accepted.
    pub open spec fn wf(&self) -> bool {
        valid_room_id(self@)
    }

    /// Validate a room identifier string.
    pub fn parse(s: String) -> (r: Result<RoomId, IdError>)
        ensures
            r is Ok <==> valid_room_id(s@),
            r matches Ok(u) ==> u@ == s@ && u.wf(),
            r matches Err(e) ==> e == IdError::InvalidRoomId,
    {
        if check_room_id(s.as_str()) {
            Ok(RoomId { id: s })
        } else {
            Err(IdError::InvalidRoomId)
        }
    }

    /// The identifier as a string.
    pub fn as_str(&self) -> (r: &str)
        ensures
            r@ == self@,
    {
        self.id.as_str()
    }
}

/// A validated event identifier.
pub struct EventId {
    id: String,
}

impl View for EventId {
    type V = Seq<char>;

    closed spec fn view(&self) -> Seq<char> {
        self.id@
    }
}

impl EventId {
    /// An `EventId` always holds a string the validator accepted.
    pub open spec fn wf(&self) -> bool {
        valid_event_id(self@)
    }

    /// Validate an event identifier string.
    pub fn parse(s: String) -> (r: Result<EventId, IdError>)
        ensures
            r is Ok <==> valid_event_id(s@),
            r matches Ok(u) ==> u@ == s@ && u.wf(),
            r matches Err(e) ==> e == IdError::InvalidEventId,
    {
        if check_event_id(s.as_str()) {
            Ok(EventId { id: s })
        } else {
            Err(IdError::InvalidEventId)
        }
    }

    /// The identifier as a string.
    pub fn as_str(&self) -> (r: &str)
        ensures
            r@ == self@,
    {
        self.id.as_str()
    }
}

} // verus!
