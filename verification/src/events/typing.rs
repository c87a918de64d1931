//! Types for the *m.typing* event.

use vstd::prelude::*;
use crate::error::InvalidInput;
use crate::json::{jval_get, lemma_view_arr, obj_push, view_arr, JsonValue, JVal};

verus! {

/// Whether every element of a JSON array is a string.
pub open spec fn all_strings(a: Seq<JVal>) -> bool {
    forall|i: int| 0 <= i < a.len() ==> a[i] is Str
}

/// The strings held by a JSON array of strings.
pub open spec fn str_values(a: Seq<JVal>) -> Seq<Seq<char>> {
    Seq::new(a.len(), |i: int| a[i]->Str_0)
}

/// Decoding a typing content: `user_ids` must be an array of strings.
pub open spec fn spec_decode_typing(j: JVal) -> Result<Seq<Seq<char>>, InvalidInput> {
    if !(j is Obj) {
        Err(InvalidInput::NotAnObject)
    } else {
        match jval_get(j, "user_ids"@) {
            Some(JVal::Arr(a)) => if all_strings(a) {
                Ok(str_values(a))
            } else {
                Err(InvalidInput::BadUserIdsField)
            },
            Some(_) => Err(InvalidInput::BadUserIdsField),
            None => Err(InvalidInput::BadUserIdsField),
        }
    }
}

/// The serialized form of a typing content.
pub open spec fn spec_serialize_typing(user_ids: Seq<Seq<char>>) -> JVal {
    JVal::Obj(
        seq![("user_ids"@, JVal::Arr(Seq::new(user_ids.len(), |i: int| JVal::Str(user_ids[i]))))],
    )
}

/// A typing content decodes back from its serialized object unchanged.
pub proof fn lemma_typing_round_trip(ids: Seq<Seq<char>>)
    ensures
        spec_serialize_typing(ids) is Obj,
        spec_decode_typing(spec_serialize_typing(ids)) == Ok::<_, InvalidInput>(ids),
{
    let arr = Seq::new(ids.len(), |i: int| JVal::Str(ids[i]));
    assert(crate::json::obj_lookup(seq![("user_ids"@, JVal::Arr(arr))], "user_ids"@) == Some(
        JVal::Arr(arr),
    ));
    assert(all_strings(arr));
    assert(str_values(arr) =~= ids);
}

/// Informs the client of the list of users currently typing.
pub struct TypingEvent {
    /// The payload.
    pub content: TypingEventContent,
    /// The kind of the event.
    pub event_type: crate::content::EventType,
    /// The ID of the room associated with this event.
    pub room_id: String,
}

/// The payload of a typing event.
pub struct TypingEventContent {
    /// The list of user IDs typing in this room, if any.
    pub user_ids: Vec<String>,
}

impl View for TypingEventContent {
    type V = Seq<Seq<char>>;

    open spec fn view(&self) -> Seq<Seq<char>> {
        Seq::new(self.user_ids@.len(), |i: int| self.user_ids@[i]@)
    }
}

impl TypingEventContent {
    /// Decode a typing content from a JSON value.
    #[verifier::loop_isolation(false)]
    pub fn from_json(v: &JsonValue) -> (r: Result<TypingEventContent, InvalidInput>)
        ensures
            match spec_decode_typing(v@) {
                Ok(ids) => r matches Ok(c) && c@ == ids,
                Err(e) => r matches Err(e2) && e2 == e,
            },
    {
        if !matches!(v, JsonValue::Obj(_)) {
            return Err(InvalidInput::NotAnObject);
        }
        match v.get("user_ids") {
            Some(JsonValue::Arr(a)) => {
                proof {
                    lemma_view_arr(a@);
                }
                let mut ids: Vec<String> = Vec::new();
                let n = a.len();
                for i in 0..n
                    invariant
                        n == a.len(),
                        ids@.len() == i,
                        forall|j: int| 0 <= j < i ==> view_arr(a@)[j] is Str,
                        forall|j: int| 0 <= j < i ==> ids@[j]@ == view_arr(a@)[j]->Str_0,
                {
                    match &a[i] {
                        JsonValue::Str(s) => {
                            ids.push(s.clone());
                        },
                        _ => {
                            proof {
                                assert(!(view_arr(a@)[i as int] is Str));
                            }
                            return Err(InvalidInput::BadUserIdsField);
                        },
                    }
                }
                proof {
                    let ghost va = view_arr(a@);
                    assert(all_strings(va));
                    assert(Seq::new(ids@.len(), |j: int| ids@[j]@) =~= str_values(va));
                }
                Ok(TypingEventContent { user_ids: ids })
            },
            Some(_) => Err(InvalidInput::BadUserIdsField),
            None => Err(InvalidInput::BadUserIdsField),
        }
    }

    /// Serialize this content back to its wire object.
    #[verifier::loop_isolation(false)]
    pub fn to_json(&self) -> (v: JsonValue)
        ensures
            v@ == spec_serialize_typing(self@),
    {
        let mut elems: Vec<JsonValue> = Vec::new();
        let n = self.user_ids.len();
        for i in 0..n
            invariant
                n == self.user_ids.len(),
                elems@.len() == i,
                forall|j: int| 0 <= j < i ==> elems@[j]@ == JVal::Str(self.user_ids@[j]@),
        {
            elems.push(JsonValue::Str(self.user_ids[i].clone()));
        }
        proof {
            lemma_view_arr(elems@);
            assert(view_arr(elems@) =~= Seq::new(self@.len(), |i: int| JVal::Str(self@[i])));
        }
        let mut fields: Vec<(String, JsonValue)> = Vec::new();
        proof {
            assert(crate::json::view_obj(fields@) =~= Seq::empty());
        }
        obj_push(&mut fields, "user_ids", JsonValue::Arr(elems));
        proof {
            assert(crate::json::view_obj(fields@) =~= seq![
                (
                    "user_ids"@,
                    JVal::Arr(Seq::new(self@.len(), |i: int| JVal::Str(self@[i]))),
                ),
            ]);
        }
        JsonValue::Obj(fields)
    }
}

} // verus!
