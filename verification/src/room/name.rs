//! Types for the *m.room.name* event.

use vstd::prelude::*;
use vstd::utf8::encode_utf8;
use crate::error::InvalidInput;
use crate::json::{obj_push, JsonValue, JVal};
use crate::room::raw;

verus! {

/// The byte length of a name once serialized: the length of its UTF-8
/// encoding, not its character count.
pub open spec fn name_byte_len(s: Seq<char>) -> nat {
    encode_utf8(s).len()
}

/// What a validating construction from a name string yields: the empty
/// name folds to "absent"; 1 to 255 bytes are kept; more is rejected.
pub open spec fn spec_new(s: Seq<char>) -> Result<Option<Seq<char>>, InvalidInput> {
    if name_byte_len(s) == 0 {
        Ok(None)
    } else if name_byte_len(s) <= 255 {
        Ok(Some(s))
    } else {
        Err(InvalidInput::NameTooLong)
    }
}

/// Normalization and validation of a whole raw room-name content.
pub open spec fn spec_decode_name(j: JVal) -> Result<Option<Seq<char>>, InvalidInput> {
    match raw::spec_decode_name_raw(j) {
        Ok(None) => Ok(None),
        Ok(Some(s)) => spec_new(s),
        Err(e) => Err(e),
    }
}

/// The serialized form of a room-name content: an object that carries the
/// name exactly when one is present.
pub open spec fn spec_serialize_name(name: Option<Seq<char>>) -> JVal {
    match name {
        Some(n) => JVal::Obj(seq![("name"@, JVal::Str(n))]),
        None => JVal::Obj(Seq::empty()),
    }
}

/// The payload for a room-name event. A value of this type always
/// satisfies the room-name rules: see [`NameEventContent::wf`].
#[derive(Clone, Debug)]
pub struct NameEventContent {
    /// The name of the room. This MUST NOT exceed 255 bytes.
    pub(crate) name: Option<String>,
}

impl View for NameEventContent {
    type V = Option<Seq<char>>;

    closed spec fn view(&self) -> Option<Seq<char>> {
        match self.name {
            Some(ref n) => Some(n@),
            None => None,
        }
    }
}

impl NameEventContent {
    /// The room-name invariant: a stored name is 1 to 255 bytes long; an
    /// empty logical name is stored as `None`.
    pub open spec fn wf(&self) -> bool {
        match self@ {
            Some(n) => 1 <= name_byte_len(n) <= 255,
            None => true,
        }
    }

    /// Create a new `NameEventContent` with the given name.
    ///
    /// An empty name is folded to "no name"; a name of more than 255
    /// bytes is rejected as invalid input.
    pub fn new(name: String) -> (r: Result<NameEventContent, InvalidInput>)
        ensures
            match spec_new(name@) {
                Ok(n) => r matches Ok(c) && c@ == n,
                Err(e) => r matches Err(e2) && e2 == e,
            },
            r matches Ok(c) ==> c.wf(),
    {
        let l = name.as_str().as_bytes().len();
        if l == 0 {
            Ok(NameEventContent { name: None })
        } else if l <= 255 {
            Ok(NameEventContent { name: Some(name) })
        } else {
            Err(InvalidInput::NameTooLong)
        }
    }

    /// Validate a raw room-name content, by the same rules as [`Self::new`].
    pub fn try_from_raw(raw_content: raw::NameEventContent) -> (r: Result<
        NameEventContent,
        InvalidInput,
    >)
        ensures
            match raw_content@ {
                None => r matches Ok(c) && c@ is None,
                Some(s) => match spec_new(s) {
                    Ok(n) => r matches Ok(c) && c@ == n,
                    Err(e) => r matches Err(e2) && e2 == e,
                },
            },
            r matches Ok(c) ==> c.wf(),
    {
        match raw_content.into_name() {
            None => Ok(NameEventContent { name: None }),
            Some(name) => NameEventContent::new(name),
        }
    }

    /// Decode and validate a room-name content from a JSON value: the raw
    /// read folds absent, null and empty names to `None`, then the name
    /// rules are enforced.
    pub fn from_json(v: &JsonValue) -> (r: Result<NameEventContent, InvalidInput>)
        ensures
            match spec_decode_name(v@) {
                Ok(n) => r matches Ok(c) && c@ == n && c.wf(),
                Err(e) => r matches Err(e2) && e2 == e,
            },
    {
        match raw::NameEventContent::from_json(v) {
            Ok(raw_content) => NameEventContent::try_from_raw(raw_content),
            Err(e) => Err(e),
        }
    }

    /// The name of the room, if any.
    pub fn name(&self) -> (r: Option<&str>)
        ensures
            match r {
                Some(s) => self@ == Some(s@),
                None => self@ is None,
            },
    {
        match &self.name {
            Some(n) => Some(n.as_str()),
            None => None,
        }
    }

    /// Serialize this content back to its wire object.
    pub fn to_json(&self) -> (v: JsonValue)
        ensures
            v@ == spec_serialize_name(self@),
    {
        match &self.name {
            Some(n) => {
                let mut fields: Vec<(String, JsonValue)> = Vec::new();
                let ghost empty = crate::json::view_obj(fields@);
                obj_push(&mut fields, "name", JsonValue::Str(n.clone()));
                proof {
                    assert(empty =~= Seq::empty());
                    assert(crate::json::view_obj(fields@) =~= seq![("name"@, JVal::Str(n@))]);
                }
                JsonValue::Obj(fields)
            },
            None => {
                let fields: Vec<(String, JsonValue)> = Vec::new();
                proof {
                    assert(crate::json::view_obj(fields@) =~= Seq::empty());
                }
                JsonValue::Obj(fields)
            },
        }
    }
}

/// A well-formed room name decodes back from its serialized object
/// unchanged.
pub proof fn lemma_name_round_trip(n: Option<Seq<char>>)
    requires
        match n {
            Some(s) => 1 <= name_byte_len(s) <= 255,
            None => true,
        },
    ensures
        spec_serialize_name(n) is Obj,
        spec_decode_name(spec_serialize_name(n)) == Ok::<_, InvalidInput>(n),
{
    match n {
        Some(s) => {
            assert(crate::json::obj_lookup(seq![("name"@, JVal::Str(s))], "name"@) == Some(
                JVal::Str(s),
            ));
        },
        None => {
            assert(crate::json::obj_lookup(Seq::<(Seq<char>, JVal)>::empty(), "name"@) is None);
        },
    }
}

/// Normalization folds every "no name" form alike: a content object whose
/// `name` field is absent, null, or an empty string validates to a content
/// with no name, never to an error.
pub proof fn lemma_name_folding(j: JVal)
    requires
        j is Obj,
    ensures
        crate::json::jval_get(j, "name"@) is None ==> spec_decode_name(j) == Ok::<
            _,
            InvalidInput,
        >(None::<Seq<char>>),
        crate::json::jval_get(j, "name"@) == Some(JVal::Null) ==> spec_decode_name(j) == Ok::<
            _,
            InvalidInput,
        >(None::<Seq<char>>),
        (match crate::json::jval_get(j, "name"@) {
            Some(JVal::Str(s)) => name_byte_len(s) == 0,
            _ => false,
        }) ==> spec_decode_name(j) == Ok::<_, InvalidInput>(None::<Seq<char>>),
{
}

/// A name of 1 to 255 bytes is accepted and kept verbatim.
pub proof fn lemma_valid_name_accepted(s: Seq<char>)
    requires
        1 <= name_byte_len(s) <= 255,
    ensures
        spec_new(s) == Ok::<Option<Seq<char>>, InvalidInput>(Some(s)),
{
}

/// A name of more than 255 bytes is rejected.
pub proof fn lemma_long_name_rejected(s: Seq<char>)
    requires
        name_byte_len(s) > 255,
    ensures
        spec_new(s) == Err::<Option<Seq<char>>, InvalidInput>(InvalidInput::NameTooLong),
{
}

/// The empty name is accepted and folds to "absent".
pub proof fn lemma_empty_name_absent()
    ensures
        spec_new(Seq::empty()) == Ok::<Option<Seq<char>>, InvalidInput>(None),
{
    assert(encode_utf8(Seq::<char>::empty()).len() == 0);
}

} // verus!
