//! The `unsigned` side channel: non-authoritative data a homeserver may
//! attach to an event. Empty by default, and omitted from wire output when
//! empty.

use vstd::prelude::*;
use crate::error::DecodeError;
use crate::json::{jval_get, obj_push, spec_opt_int, spec_opt_str, JsonValue, JVal};

verus! {

/// Mathematical model of the unsigned data.
pub struct UnsignedView {
    pub age: Option<i64>,
    pub transaction_id: Option<Seq<char>>,
}

/// Non-authoritative metadata attached by a homeserver.
pub struct UnsignedData {
    /// Milliseconds since the event was received, if the server said.
    pub age: Option<i64>,
    /// The client-supplied transaction id, if any.
    pub transaction_id: Option<String>,
}

impl View for UnsignedData {
    type V = UnsignedView;

    open spec fn view(&self) -> UnsignedView {
        UnsignedView {
            age: self.age,
            transaction_id: match self.transaction_id {
                Some(ref t) => Some(t@),
                None => None,
            },
        }
    }
}

impl UnsignedView {
    /// Empty unsigned data carries nothing at all.
    pub open spec fn is_empty(&self) -> bool {
        self.age is None && self.transaction_id is None
    }

    /// The empty unsigned data.
    pub open spec fn empty() -> UnsignedView {
        UnsignedView { age: None, transaction_id: None }
    }
}

impl UnsignedData {
    /// Whether nothing was attached.
    pub fn is_empty(&self) -> (r: bool)
        ensures
            r == self@.is_empty(),
    {
        self.age.is_none() && self.transaction_id.is_none()
    }
}

/// How the `unsigned` field of an envelope reads: absent means empty; an
/// object is read permissively, ignoring keys this crate does not know;
/// anything else is malformed.
pub open spec fn spec_parse_unsigned(j: JVal) -> Result<UnsignedView, DecodeError> {
    match jval_get(j, "unsigned"@) {
        None => Ok(UnsignedView::empty()),
        Some(u) => if !(u is Obj) {
            Err(DecodeError::BadUnsigned)
        } else {
            match (spec_opt_int(u, "age"@), spec_opt_str(u, "transaction_id"@)) {
                (Ok(age), Ok(txn)) => Ok(UnsignedView { age, transaction_id: txn }),
                _ => Err(DecodeError::BadUnsigned),
            }
        },
    }
}

/// The serialized form of non-empty unsigned data, field by optional
/// field.
pub open spec fn spec_serialize_unsigned(u: UnsignedView) -> JVal {
    let f0 = Seq::<(Seq<char>, JVal)>::empty();
    let f1 = match u.age {
        Some(a) => f0.push(("age"@, JVal::Int(a))),
        None => f0,
    };
    JVal::Obj(
        match u.transaction_id {
            Some(t) => f1.push(("transaction_id"@, JVal::Str(t))),
            None => f1,
        },
    )
}

impl UnsignedData {
    /// Read the `unsigned` field of an envelope object, defaulting to
    /// empty when absent.
    pub fn from_envelope(v: &JsonValue) -> (r: Result<UnsignedData, DecodeError>)
        ensures
            match spec_parse_unsigned(v@) {
                Ok(u) => r matches Ok(d) && d@ == u,
                Err(e) => r matches Err(e2) && e2 == e,
            },
    {
        match v.get("unsigned") {
            None => Ok(UnsignedData { age: None, transaction_id: None }),
            Some(u) => {
                if !matches!(u, JsonValue::Obj(_)) {
                    return Err(DecodeError::BadUnsigned);
                }
                match (u.get_opt_int("age"), u.get_opt_str("transaction_id")) {
                    (Ok(age), Ok(transaction_id)) => Ok(UnsignedData { age, transaction_id }),
                    _ => Err(DecodeError::BadUnsigned),
                }
            },
        }
    }

    /// Serialize this (non-empty) unsigned data to its wire object,
    /// omitting absent fields.
    pub fn to_json(&self) -> (v: JsonValue)
        ensures
            v@ == spec_serialize_unsigned(self@),
    {
        let mut fields: Vec<(String, JsonValue)> = Vec::new();
        proof {
            assert(crate::json::view_obj(fields@) =~= Seq::empty());
        }
        if let Some(a) = self.age {
            obj_push(&mut fields, "age", JsonValue::Int(a));
        }
        if let Some(ref t) = self.transaction_id {
            obj_push(&mut fields, "transaction_id", JsonValue::Str(t.clone()));
        }
        JsonValue::Obj(fields)
    }
}

impl Default for UnsignedData {
    /// Unsigned data is empty by default.
    fn default() -> (r: UnsignedData)
        ensures
            r@ == UnsignedView::empty(),
    {
        UnsignedData { age: None, transaction_id: None }
    }
}

} // verus!
