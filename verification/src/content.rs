//! The content registry: an open mapping from a discriminant string to the
//! content shape it selects.
//!
//! The statically known discriminants each pick one typed content; every
//! other discriminant falls back to an opaque bag of key/value pairs, so
//! unknown event kinds still round-trip losslessly.

use vstd::prelude::*;
use crate::error::InvalidInput;
use crate::events::typing::{spec_decode_typing, spec_serialize_typing, TypingEventContent};
use crate::json::{str_eq, JsonValue, JVal};
use crate::room::avatar::{spec_decode_avatar, spec_serialize_avatar, AvatarEventContent, AvatarView};
use crate::room::join_rules::{spec_decode_join_rules, spec_serialize_join_rules, JoinRule, JoinRulesEventContent};
use crate::room::name::{spec_decode_name, spec_serialize_name, NameEventContent};

verus! {

/// Mathematical model of an event's kind.
pub enum EventTypeView {
    RoomAvatar,
    RoomJoinRules,
    RoomName,
    Typing,
    Custom(Seq<char>),
}

/// The kind of an event, as an open set: the known discriminants, plus a
/// custom variant carrying any other discriminant verbatim.
pub enum EventType {
    /// *m.room.avatar*
    RoomAvatar,
    /// *m.room.join_rules*
    RoomJoinRules,
    /// *m.room.name*
    RoomName,
    /// *m.typing*
    Typing,
    /// Any event kind this crate does not know statically.
    Custom(String),
}

impl View for EventType {
    type V = EventTypeView;

    open spec fn view(&self) -> EventTypeView {
        match self {
            EventType::RoomAvatar => EventTypeView::RoomAvatar,
            EventType::RoomJoinRules => EventTypeView::RoomJoinRules,
            EventType::RoomName => EventTypeView::RoomName,
            EventType::Typing => EventTypeView::Typing,
            EventType::Custom(s) => EventTypeView::Custom(s@),
        }
    }
}

/// The registry lookup: which kind a discriminant string selects.
/// Lookup is exact and case-sensitive; a miss is the custom fallback.
pub open spec fn spec_parse_event_type(s: Seq<char>) -> EventTypeView {
    if s == "m.room.avatar"@ {
        EventTypeView::RoomAvatar
    } else if s == "m.room.join_rules"@ {
        EventTypeView::RoomJoinRules
    } else if s == "m.room.name"@ {
        EventTypeView::RoomName
    } else if s == "m.typing"@ {
        EventTypeView::Typing
    } else {
        EventTypeView::Custom(s)
    }
}

/// The discriminant a kind is written as on the wire.
pub open spec fn event_type_name(t: EventTypeView) -> Seq<char> {
    match t {
        EventTypeView::RoomAvatar => "m.room.avatar"@,
        EventTypeView::RoomJoinRules => "m.room.join_rules"@,
        EventTypeView::RoomName => "m.room.name"@,
        EventTypeView::Typing => "m.typing"@,
        EventTypeView::Custom(s) => s,
    }
}

impl EventType {
    /// Look a discriminant string up in the registry.
    pub fn parse(s: &str) -> (t: EventType)
        ensures
            t@ == spec_parse_event_type(s@),
    {
        if str_eq(s, "m.room.avatar") {
            EventType::RoomAvatar
        } else if str_eq(s, "m.room.join_rules") {
            EventType::RoomJoinRules
        } else if str_eq(s, "m.room.name") {
            EventType::RoomName
        } else if str_eq(s, "m.typing") {
            EventType::Typing
        } else {
            EventType::Custom(s.to_owned())
        }
    }

    /// The discriminant this kind is written as.
    pub fn as_str(&self) -> (r: &str)
        ensures
            r@ == event_type_name(self@),
    {
        match self {
            EventType::RoomAvatar => "m.room.avatar",
            EventType::RoomJoinRules => "m.room.join_rules",
            EventType::RoomName => "m.room.name",
            EventType::Typing => "m.typing",
            EventType::Custom(s) => s.as_str(),
        }
    }
}

/// Mathematical model of a typed content.
pub enum ContentView {
    Name(Option<Seq<char>>),
    Typing(Seq<Seq<char>>),
    Avatar(AvatarView),
    JoinRules(JoinRule),
    Custom(Seq<char>, JVal),
}

/// Content of an event kind this crate does not know statically, kept as
/// the opaque object it arrived as.
pub struct CustomEventContent {
    /// The discriminant of the event.
    pub event_type: String,
    /// The content, exactly as it stood on the wire.
    pub data: JsonValue,
}

/// A typed, validated content of any kind the registry knows, or the
/// opaque fallback for any other.
pub enum AnyEventContent {
    RoomName(NameEventContent),
    Typing(TypingEventContent),
    RoomAvatar(AvatarEventContent),
    RoomJoinRules(JoinRulesEventContent),
    Custom(CustomEventContent),
}

impl View for AnyEventContent {
    type V = ContentView;

    open spec fn view(&self) -> ContentView {
        match self {
            AnyEventContent::RoomName(c) => ContentView::Name(c@),
            AnyEventContent::Typing(c) => ContentView::Typing(c@),
            AnyEventContent::RoomAvatar(c) => ContentView::Avatar(c@),
            AnyEventContent::RoomJoinRules(c) => ContentView::JoinRules(c@),
            AnyEventContent::Custom(c) => ContentView::Custom(c.event_type@, c.data@),
        }
    }
}

/// Every rule a content of its kind must satisfy. Custom content must be
/// an object whose discriminant the registry does not know, which is
/// exactly how the fallback produces it.
pub open spec fn content_wf(c: ContentView) -> bool {
    match c {
        ContentView::Name(n) => match n {
            Some(s) => 1 <= crate::room::name::name_byte_len(s) <= 255,
            None => true,
        },
        ContentView::Custom(t, d) => d is Obj && spec_parse_event_type(t) == EventTypeView::Custom(
            t,
        ),
        _ => true,
    }
}

/// The discriminant a content serializes under: a fixed literal per known
/// kind, the stored discriminant for custom content.
pub open spec fn content_discriminant(c: ContentView) -> Seq<char> {
    match c {
        ContentView::Name(_) => "m.room.name"@,
        ContentView::Typing(_) => "m.typing"@,
        ContentView::Avatar(_) => "m.room.avatar"@,
        ContentView::JoinRules(_) => "m.room.join_rules"@,
        ContentView::Custom(t, _) => t,
    }
}

/// Dispatch: resolve the discriminant in the registry and decode the
/// content by the kind's own rules, or keep it opaque on a miss.
pub open spec fn spec_decode_content(ty: Seq<char>, j: JVal) -> Result<ContentView, InvalidInput> {
    match spec_parse_event_type(ty) {
        EventTypeView::RoomName => match spec_decode_name(j) {
            Ok(n) => Ok(ContentView::Name(n)),
            Err(e) => Err(e),
        },
        EventTypeView::Typing => match spec_decode_typing(j) {
            Ok(ids) => Ok(ContentView::Typing(ids)),
            Err(e) => Err(e),
        },
        EventTypeView::RoomAvatar => match spec_decode_avatar(j) {
            Ok(a) => Ok(ContentView::Avatar(a)),
            Err(e) => Err(e),
        },
        EventTypeView::RoomJoinRules => match spec_decode_join_rules(j) {
            Ok(r) => Ok(ContentView::JoinRules(r)),
            Err(e) => Err(e),
        },
        EventTypeView::Custom(t) => if j is Obj {
            Ok(ContentView::Custom(t, j))
        } else {
            Err(InvalidInput::NotAnObject)
        },
    }
}

/// The serialized form of a typed content.
pub open spec fn spec_serialize_content(c: ContentView) -> JVal {
    match c {
        ContentView::Name(n) => spec_serialize_name(n),
        ContentView::Typing(ids) => spec_serialize_typing(ids),
        ContentView::Avatar(a) => spec_serialize_avatar(a),
        ContentView::JoinRules(r) => spec_serialize_join_rules(r),
        ContentView::Custom(_, d) => d,
    }
}

/// A decoded content always satisfies its kind's rules and serializes
/// under the discriminant it was decoded with.
pub proof fn lemma_decode_content_wf(ty: Seq<char>, j: JVal)
    ensures
        spec_decode_content(ty, j) matches Ok(c) ==> content_wf(c) && content_discriminant(c)
            == ty,
{
}

/// The four known discriminants, told apart by length.
pub proof fn lemma_type_string_chars()
    ensures
        "m.room.avatar"@.len() == 13,
        "m.room.join_rules"@.len() == 17,
        "m.room.name"@.len() == 11,
        "m.typing"@.len() == 8,
{
    reveal_strlit("m.room.avatar");
    reveal_strlit("m.room.join_rules");
    reveal_strlit("m.room.name");
    reveal_strlit("m.typing");
}

/// A well-formed content decodes back, under its own discriminant, from
/// its serialized object unchanged; and that object is always a JSON
/// object.
pub proof fn lemma_content_round_trip(c: ContentView)
    requires
        content_wf(c),
    ensures
        spec_serialize_content(c) is Obj,
        spec_decode_content(content_discriminant(c), spec_serialize_content(c)) == Ok::<
            _,
            InvalidInput,
        >(c),
{
    lemma_type_string_chars();
    match c {
        ContentView::Name(n) => {
            crate::room::name::lemma_name_round_trip(n);
        },
        ContentView::Typing(ids) => {
            crate::events::typing::lemma_typing_round_trip(ids);
        },
        ContentView::Avatar(a) => {
            crate::room::avatar::lemma_avatar_round_trip(a);
        },
        ContentView::JoinRules(r) => {
            crate::room::join_rules::lemma_join_rules_round_trip(r);
        },
        ContentView::Custom(_, _) => {},
    }
}

impl AnyEventContent {
    /// Every rule of this content's kind holds of it.
    pub open spec fn wf(&self) -> bool {
        content_wf(self@)
    }

    /// Decode a content value under a discriminant: registry dispatch,
    /// then the kind's own normalization and validation.
    pub fn decode(ty: &str, v: &JsonValue) -> (r: Result<AnyEventContent, InvalidInput>)
        ensures
            match spec_decode_content(ty@, v@) {
                Ok(c) => r matches Ok(a) && a@ == c && a.wf(),
                Err(e) => r matches Err(e2) && e2 == e,
            },
    {
        proof {
            lemma_decode_content_wf(ty@, v@);
        }
        match EventType::parse(ty) {
            EventType::RoomName => match NameEventContent::from_json(v) {
                Ok(c) => Ok(AnyEventContent::RoomName(c)),
                Err(e) => Err(e),
            },
            EventType::Typing => match TypingEventContent::from_json(v) {
                Ok(c) => Ok(AnyEventContent::Typing(c)),
                Err(e) => Err(e),
            },
            EventType::RoomAvatar => match AvatarEventContent::from_json(v) {
                Ok(c) => Ok(AnyEventContent::RoomAvatar(c)),
                Err(e) => Err(e),
            },
            EventType::RoomJoinRules => match JoinRulesEventContent::from_json(v) {
                Ok(c) => Ok(AnyEventContent::RoomJoinRules(c)),
                Err(e) => Err(e),
            },
            EventType::Custom(t) => {
                if matches!(v, JsonValue::Obj(_)) {
                    Ok(
                        AnyEventContent::Custom(
                            CustomEventContent { event_type: t, data: v.deep_clone() },
                        ),
                    )
                } else {
                    Err(InvalidInput::NotAnObject)
                }
            },
        }
    }

    /// The discriminant this content serializes under.
    pub fn event_type_str(&self) -> (r: &str)
        ensures
            r@ == content_discriminant(self@),
    {
        match self {
            AnyEventContent::RoomName(_) => "m.room.name",
            AnyEventContent::Typing(_) => "m.typing",
            AnyEventContent::RoomAvatar(_) => "m.room.avatar",
            AnyEventContent::RoomJoinRules(_) => "m.room.join_rules",
            AnyEventContent::Custom(c) => c.event_type.as_str(),
        }
    }

    /// Serialize this content back to its wire object.
    pub fn to_json(&self) -> (v: JsonValue)
        ensures
            v@ == spec_serialize_content(self@),
    {
        match self {
            AnyEventContent::RoomName(c) => c.to_json(),
            AnyEventContent::Typing(c) => c.to_json(),
            AnyEventContent::RoomAvatar(c) => c.to_json(),
            AnyEventContent::RoomJoinRules(c) => c.to_json(),
            AnyEventContent::Custom(c) => c.data.deep_clone(),
        }
    }
}

} // verus!
