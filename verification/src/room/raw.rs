//! Raw, pre-validation content payloads.
//!
//! A raw content is as permissive as the wire allows: a field that is
//! absent, null, or an empty string is folded to "no value" here, before
//! any invariant is checked, so an empty name can never be reported as
//! too long.

use vstd::prelude::*;
use vstd::utf8::encode_utf8;
use crate::error::InvalidInput;
use crate::json::{obj_get, obj_lookup, JsonValue, JVal};

verus! {

/// How a raw room-name content reads off a JSON content object: an absent,
/// null or empty `name` folds to `None`; a non-empty string is kept; any
/// other value is rejected.
pub open spec fn spec_decode_name_raw(j: JVal) -> Result<Option<Seq<char>>, InvalidInput> {
    match j {
        JVal::Obj(fields) => match obj_lookup(fields, "name"@) {
            None => Ok(None),
            Some(JVal::Null) => Ok(None),
            Some(JVal::Str(s)) => if encode_utf8(s).len() == 0 {
                Ok(None)
            } else {
                Ok(Some(s))
            },
            Some(_) => Err(InvalidInput::BadNameField),
        },
        _ => Err(InvalidInput::NotAnObject),
    }
}

/// The raw payload of a room-name event, before validation.
#[derive(Clone, Debug)]
pub struct NameEventContent {
    /// The name of the room, already folded: never `Some` of an empty string.
    pub(crate) name: Option<String>,
}

impl View for NameEventContent {
    type V = Option<Seq<char>>;

    closed spec fn view(&self) -> Option<Seq<char>> {
        match self.name {
            Some(ref n) => Some(n@),
            None => None,
        }
    }
}

impl NameEventContent {
    /// Structurally read a raw room-name content off a JSON value,
    /// folding absent, null and empty names to `None`.
    pub fn from_json(v: &JsonValue) -> (r: Result<NameEventContent, InvalidInput>)
        ensures
            match spec_decode_name_raw(v@) {
                Ok(n) => r matches Ok(c) && c@ == n,
                Err(e) => r matches Err(e2) && e2 == e,
            },
    {
        match v {
            JsonValue::Obj(fields) => match obj_get(fields, "name") {
                None => Ok(NameEventContent { name: None }),
                Some(JsonValue::Null) => Ok(NameEventContent { name: None }),
                Some(JsonValue::Str(s)) => {
                    if s.as_str().as_bytes().len() == 0 {
                        Ok(NameEventContent { name: None })
                    } else {
                        Ok(NameEventContent { name: Some(s.clone()) })
                    }
                },
                Some(_) => Err(InvalidInput::BadNameField),
            },
            _ => Err(InvalidInput::NotAnObject),
        }
    }

    /// Give up the folded name.
    pub fn into_name(self) -> (r: Option<String>)
        ensures
            match r {
                Some(s) => self@ == Some(s@),
                None => self@ is None,
            },
    {
        self.name
    }

    /// The folded name, if any.
    pub fn name(&self) -> (r: Option<&str>)
        ensures
            match r {
                Some(s) => self@ == Some(s@),
                None => self@ is None,
            },
    {
        match &self.name {
            Some(n) => Some(n.as_str()),
            None => None,
        }
    }
}

} // verus!
