//! A generic JSON value model.
//!
//! `JsonValue` is the executable representation of a parsed JSON document;
//! `JVal` is its mathematical counterpart, used by every contract in the
//! crate. Objects keep their fields in order, so a value round-trips
//! unchanged through the codec.

use vstd::prelude::*;

verus! {

/// Mathematical model of a JSON value.
#[verifier::ext_equal]
pub enum JVal {
    Null,
    Bool(bool),
    Int(i64),
    Str(Seq<char>),
    Arr(Seq<JVal>),
    Obj(Seq<(Seq<char>, JVal)>),
}

/// Executable JSON value. Numbers are restricted to signed 64-bit
/// integers, which covers every numeric field of the wire format.
pub enum JsonValue {
    Null,
    Bool(bool),
    Int(i64),
    Str(String),
    Arr(Vec<JsonValue>),
    Obj(Vec<(String, JsonValue)>),
}

impl View for JsonValue {
    type V = JVal;

    open spec fn view(&self) -> JVal
        decreases self,
    {
        match self {
            JsonValue::Null => JVal::Null,
            JsonValue::Bool(b) => JVal::Bool(*b),
            JsonValue::Int(i) => JVal::Int(*i),
            JsonValue::Str(s) => JVal::Str(s@),
            JsonValue::Arr(a) => JVal::Arr(view_arr(a@)),
            JsonValue::Obj(o) => JVal::Obj(view_obj(o@)),
        }
    }
}

/// Model of a sequence of JSON values, element by element.
pub open spec fn view_arr(s: Seq<JsonValue>) -> Seq<JVal>
    decreases s,
{
    if s.len() == 0 {
        Seq::empty()
    } else {
        seq![s[0]@] + view_arr(s.drop_first())
    }
}

/// Model of an object's field list, element by element.
pub open spec fn view_obj(s: Seq<(String, JsonValue)>) -> Seq<(Seq<char>, JVal)>
    decreases s,
{
    if s.len() == 0 {
        Seq::empty()
    } else {
        seq![(s[0].0@, s[0].1@)] + view_obj(s.drop_first())
    }
}

/// `view_arr` maps the sequence pointwise.
pub broadcast proof fn lemma_view_arr(s: Seq<JsonValue>)
    ensures
        #[trigger] view_arr(s).len() == s.len(),
        forall|i: int| 0 <= i < s.len() ==> view_arr(s)[i] == s[i]@,
    decreases s.len(),
{
    if s.len() > 0 {
        lemma_view_arr(s.drop_first());
        assert(view_arr(s) == seq![s[0]@] + view_arr(s.drop_first()));
        assert(seq![s[0]@].len() == 1);
        assert forall|i: int| 0 <= i < s.len() implies view_arr(s)[i] == s[i]@ by {
            if i > 0 {
                assert((seq![s[0]@] + view_arr(s.drop_first()))[i] == view_arr(s.drop_first())[i
                    - 1]);
                assert(s.drop_first()[i - 1] == s[i]);
            }
        }
    }
}

/// `view_obj` maps the field list pointwise.
pub broadcast proof fn lemma_view_obj(s: Seq<(String, JsonValue)>)
    ensures
        #[trigger] view_obj(s).len() == s.len(),
        forall|i: int| 0 <= i < s.len() ==> view_obj(s)[i] == (s[i].0@, s[i].1@),
    decreases s.len(),
{
    if s.len() > 0 {
        lemma_view_obj(s.drop_first());
        assert(view_obj(s) == seq![(s[0].0@, s[0].1@)] + view_obj(s.drop_first()));
        assert(seq![(s[0].0@, s[0].1@)].len() == 1);
        assert forall|i: int| 0 <= i < s.len() implies view_obj(s)[i] == (s[i].0@, s[i].1@) by {
            if i > 0 {
                assert((seq![(s[0].0@, s[0].1@)] + view_obj(s.drop_first()))[i] == view_obj(
                    s.drop_first(),
                )[i - 1]);
                assert(s.drop_first()[i - 1] == s[i]);
            }
        }
    }
}

/// The value of the first field named `key`, if any.
pub open spec fn obj_lookup(fields: Seq<(Seq<char>, JVal)>, key: Seq<char>) -> Option<JVal>
    decreases fields,
{
    if fields.len() == 0 {
        None
    } else if fields[0].0 == key {
        Some(fields[0].1)
    } else {
        obj_lookup(fields.drop_first(), key)
    }
}

/// Field lookup on a JSON value: `None` unless the value is an object
/// with a field of that name.
pub open spec fn jval_get(j: JVal, key: Seq<char>) -> Option<JVal> {
    match j {
        JVal::Obj(fields) => obj_lookup(fields, key),
        _ => None,
    }
}

/// Whether an object value has a field of the given name.
pub open spec fn jval_has(j: JVal, key: Seq<char>) -> bool {
    jval_get(j, key) is Some
}

/// Looking a key up in a field list with one more field at the end: an
/// earlier field still wins; otherwise the new field answers.
pub broadcast proof fn lemma_obj_lookup_push(fields: Seq<(Seq<char>, JVal)>, kv: (Seq<char>, JVal), key: Seq<char>)
    ensures
        #[trigger] obj_lookup(fields.push(kv), key) == (match obj_lookup(fields, key) {
            Some(v) => Some(v),
            None => if kv.0 == key {
                Some(kv.1)
            } else {
                None
            },
        }),
    decreases fields.len(),
{
    if fields.len() == 0 {
        assert(fields.push(kv)[0] == kv);
        assert(fields.push(kv).drop_first() =~= Seq::empty());
    } else {
        assert(fields.push(kv)[0] == fields[0]);
        assert(fields.push(kv).drop_first() =~= fields.drop_first().push(kv));
        lemma_obj_lookup_push(fields.drop_first(), kv, key);
    }
}

proof fn lemma_obj_lookup_skip(fields: Seq<(Seq<char>, JVal)>, key: Seq<char>, i: int)
    requires
        0 <= i < fields.len(),
        fields[i].0 != key,
        obj_lookup(fields, key) == obj_lookup(fields.skip(i), key),
    ensures
        obj_lookup(fields, key) == obj_lookup(fields.skip(i + 1), key),
{
    assert(fields.skip(i).len() > 0);
    assert(fields.skip(i)[0] == fields[i]);
    assert(fields.skip(i).drop_first() =~= fields.skip(i + 1));
}

/// Find the first field named `key` in a field list.
#[verifier::loop_isolation(false)]
pub fn obj_get<'a>(fields: &'a Vec<(String, JsonValue)>, key: &str) -> (r: Option<&'a JsonValue>)
    ensures
        match r {
            Some(v) => obj_lookup(view_obj(fields@), key@) == Some(v@),
            None => obj_lookup(view_obj(fields@), key@) is None,
        },
{
    proof {
        lemma_view_obj(fields@);
    }
    let key_s: String = key.to_owned();
    let ghost vf = view_obj(fields@);
    proof {
        assert(vf.skip(0) =~= vf);
    }
    let n = fields.len();
    for i in 0..n
        invariant
            n == fields.len(),
            vf == view_obj(fields@),
            vf.len() == n,
            forall|j: int| 0 <= j < n ==> vf[j] == (fields@[j].0@, fields@[j].1@),
            key_s@ == key@,
            obj_lookup(vf, key@) == obj_lookup(vf.skip(i as int), key@),
    {
        if fields[i].0 == key_s {
            assert(vf.skip(i as int)[0] == vf[i as int]);
            return Some(&fields[i].1);
        }
        proof {
            lemma_obj_lookup_skip(vf, key@, i as int);
        }
    }
    assert(vf.skip(n as int) =~= Seq::empty());
    None
}

impl JsonValue {
    /// Field lookup: `None` unless this value is an object with such a field.
    pub fn get<'a>(&'a self, key: &str) -> (r: Option<&'a JsonValue>)
        ensures
            match r {
                Some(v) => jval_get(self@, key@) == Some(v@),
                None => jval_get(self@, key@) is None,
            },
    {
        match self {
            JsonValue::Obj(fields) => obj_get(fields, key),
            _ => None,
        }
    }
}

impl JsonValue {
    /// An independent copy of this value.
    #[verifier::loop_isolation(false)]
    pub fn deep_clone(&self) -> (r: JsonValue)
        ensures
            r@ == self@,
        decreases self,
    {
        match self {
            JsonValue::Null => JsonValue::Null,
            JsonValue::Bool(b) => JsonValue::Bool(*b),
            JsonValue::Int(i) => JsonValue::Int(*i),
            JsonValue::Str(s) => JsonValue::Str(s.clone()),
            JsonValue::Arr(a) => {
                let mut out: Vec<JsonValue> = Vec::new();
                let n = a.len();
                for i in 0..n
                    invariant
                        n == a.len(),
                        out@.len() == i,
                        forall|j: int| 0 <= j < i ==> out@[j]@ == a@[j]@,
                {
                    proof {
                        assert(decreases_to!(a => a[i as int]));
                    }
                    out.push(a[i].deep_clone());
                }
                proof {
                    lemma_view_arr(a@);
                    lemma_view_arr(out@);
                    assert(view_arr(out@) =~= view_arr(a@));
                }
                JsonValue::Arr(out)
            },
            JsonValue::Obj(o) => {
                let mut out: Vec<(String, JsonValue)> = Vec::new();
                let n = o.len();
                for i in 0..n
                    invariant
                        n == o.len(),
                        out@.len() == i,
                        forall|j: int| 0 <= j < i ==> out@[j].0@ == o@[j].0@ && out@[j].1@ == o@[j].1@,
                {
                    proof {
                        assert(decreases_to!(o => o[i as int]));
                    }
                    out.push((o[i].0.clone(), o[i].1.deep_clone()));
                }
                proof {
                    lemma_view_obj(o@);
                    lemma_view_obj(out@);
                    assert(view_obj(out@) =~= view_obj(o@));
                }
                JsonValue::Obj(out)
            },
        }
    }
}

/// Which constructor a JSON value uses; equal values use the same one.
pub open spec fn jval_tag(j: JVal) -> int {
    match j {
        JVal::Null => 0,
        JVal::Bool(_) => 1,
        JVal::Int(_) => 2,
        JVal::Str(_) => 3,
        JVal::Arr(_) => 4,
        JVal::Obj(_) => 5,
    }
}

/// Structural equality of two JSON values.
#[verifier::loop_isolation(false)]
pub fn json_eq(a: &JsonValue, b: &JsonValue) -> (r: bool)
    ensures
        r == (a@ == b@),
    decreases a,
{
    match (a, b) {
        (JsonValue::Null, JsonValue::Null) => {
            proof {
                assert(a@ == JVal::Null);
                assert(b@ == JVal::Null);
            }
            return true;
        },
        (JsonValue::Bool(x), JsonValue::Bool(y)) => {
            proof {
                assert(a@ == JVal::Bool(*x));
                assert(b@ == JVal::Bool(*y));
            }
            return *x == *y;
        },
        (JsonValue::Int(x), JsonValue::Int(y)) => { return *x == *y; },
        (JsonValue::Str(x), JsonValue::Str(y)) => { return *x == *y; },
        (JsonValue::Arr(x), JsonValue::Arr(y)) => {
            proof {
                lemma_view_arr(x@);
                lemma_view_arr(y@);
            }
            if x.len() != y.len() {
                return false;
            }
            let n = x.len();
            for i in 0..n
                invariant
                    n == x.len() == y.len(),
                    forall|j: int| 0 <= j < i ==> view_arr(x@)[j] == view_arr(y@)[j],
                    view_arr(x@).len() == n,
                    view_arr(y@).len() == n,
                    forall|j: int| 0 <= j < n ==> view_arr(x@)[j] == x@[j]@,
                    forall|j: int| 0 <= j < n ==> view_arr(y@)[j] == y@[j]@,
            {
                proof {
                    assert(decreases_to!(x => x[i as int]));
                }
                if !json_eq(&x[i], &y[i]) {
                    proof {
                        assert(view_arr(x@)[i as int] != view_arr(y@)[i as int]);
                    }
                    return false;
                }
            }
            proof {
                assert(view_arr(x@) =~= view_arr(y@));
            }
            return true;
        },
        (JsonValue::Obj(x), JsonValue::Obj(y)) => {
            proof {
                lemma_view_obj(x@);
                lemma_view_obj(y@);
            }
            if x.len() != y.len() {
                return false;
            }
            let n = x.len();
            for i in 0..n
                invariant
                    n == x.len() == y.len(),
                    forall|j: int| 0 <= j < i ==> view_obj(x@)[j] == view_obj(y@)[j],
                    view_obj(x@).len() == n,
                    view_obj(y@).len() == n,
                    forall|j: int| 0 <= j < n ==> view_obj(x@)[j] == (x@[j].0@, x@[j].1@),
                    forall|j: int| 0 <= j < n ==> view_obj(y@)[j] == (y@[j].0@, y@[j].1@),
            {
                proof {
                    assert(decreases_to!(x => x[i as int]));
                }
                if !(x[i].0 == y[i].0) {
                    proof {
                        assert(view_obj(x@)[i as int] != view_obj(y@)[i as int]);
                    }
                    return false;
                }
                if !json_eq(&x[i].1, &y[i].1) {
                    proof {
                        assert(view_obj(x@)[i as int] != view_obj(y@)[i as int]);
                    }
                    return false;
                }
            }
            proof {
                assert(view_obj(x@) =~= view_obj(y@));
            }
            return true;
        },
        _ => {
            proof {
                assert(jval_tag(a@) != jval_tag(b@));
            }
            return false;
        },
    }
}

/// Why reading a field of an object failed.
#[derive(Clone, Copy, Debug, PartialEq, Eq, Structural)]
pub enum FieldErr {
    /// The field is not there.
    Missing,
    /// The field is there but of the wrong JSON type.
    WrongType,
}

/// Reading an optional string field: absent and null both mean "none".
pub open spec fn spec_opt_str(j: JVal, key: Seq<char>) -> Result<Option<Seq<char>>, FieldErr> {
    match jval_get(j, key) {
        None => Ok(None),
        Some(JVal::Null) => Ok(None),
        Some(JVal::Str(s)) => Ok(Some(s)),
        Some(_) => Err(FieldErr::WrongType),
    }
}

/// Reading a required string field.
pub open spec fn spec_req_str(j: JVal, key: Seq<char>) -> Result<Seq<char>, FieldErr> {
    match jval_get(j, key) {
        None => Err(FieldErr::Missing),
        Some(JVal::Str(s)) => Ok(s),
        Some(_) => Err(FieldErr::WrongType),
    }
}

/// Reading a required integer field.
pub open spec fn spec_req_int(j: JVal, key: Seq<char>) -> Result<i64, FieldErr> {
    match jval_get(j, key) {
        None => Err(FieldErr::Missing),
        Some(JVal::Int(n)) => Ok(n),
        Some(_) => Err(FieldErr::WrongType),
    }
}

/// Reading an optional integer field: absent and null both mean "none".
pub open spec fn spec_opt_int(j: JVal, key: Seq<char>) -> Result<Option<i64>, FieldErr> {
    match jval_get(j, key) {
        None => Ok(None),
        Some(JVal::Null) => Ok(None),
        Some(JVal::Int(n)) => Ok(Some(n)),
        Some(_) => Err(FieldErr::WrongType),
    }
}

/// Reading an optional small non-negative integer field: absent and null
/// both mean "none"; an integer outside `0..=u32::MAX` is a wrong type.
pub open spec fn spec_opt_u32(j: JVal, key: Seq<char>) -> Result<Option<u32>, FieldErr> {
    match jval_get(j, key) {
        None => Ok(None),
        Some(JVal::Null) => Ok(None),
        Some(JVal::Int(n)) => if 0 <= n <= u32::MAX {
            Ok(Some(n as u32))
        } else {
            Err(FieldErr::WrongType)
        },
        Some(_) => Err(FieldErr::WrongType),
    }
}

impl JsonValue {
    /// Read an optional string field; absent and null both yield `None`.
    pub fn get_opt_str(&self, key: &str) -> (r: Result<Option<String>, FieldErr>)
        ensures
            match spec_opt_str(self@, key@) {
                Ok(n) => r matches Ok(n2) && (match n2 {
                    Some(s) => n == Some(s@),
                    None => n is None,
                }),
                Err(e) => r matches Err(e2) && e2 == e,
            },
    {
        match self.get(key) {
            None => Ok(None),
            Some(JsonValue::Null) => Ok(None),
            Some(JsonValue::Str(s)) => Ok(Some(s.clone())),
            Some(_) => Err(FieldErr::WrongType),
        }
    }

    /// Read a required string field.
    pub fn get_req_str(&self, key: &str) -> (r: Result<String, FieldErr>)
        ensures
            match spec_req_str(self@, key@) {
                Ok(s) => r matches Ok(s2) && s2@ == s,
                Err(e) => r matches Err(e2) && e2 == e,
            },
    {
        match self.get(key) {
            None => Err(FieldErr::Missing),
            Some(JsonValue::Str(s)) => Ok(s.clone()),
            Some(_) => Err(FieldErr::WrongType),
        }
    }

    /// Read a required integer field.
    pub fn get_req_int(&self, key: &str) -> (r: Result<i64, FieldErr>)
        ensures
            match spec_req_int(self@, key@) {
                Ok(n) => r matches Ok(n2) && n2 == n,
                Err(e) => r matches Err(e2) && e2 == e,
            },
    {
        match self.get(key) {
            None => Err(FieldErr::Missing),
            Some(JsonValue::Int(n)) => Ok(*n),
            Some(_) => Err(FieldErr::WrongType),
        }
    }

    /// Read an optional integer field; absent and null both yield `None`.
    pub fn get_opt_int(&self, key: &str) -> (r: Result<Option<i64>, FieldErr>)
        ensures
            match spec_opt_int(self@, key@) {
                Ok(n) => r matches Ok(n2) && n2 == n,
                Err(e) => r matches Err(e2) && e2 == e,
            },
    {
        match self.get(key) {
            None => Ok(None),
            Some(JsonValue::Null) => Ok(None),
            Some(JsonValue::Int(n)) => Ok(Some(*n)),
            Some(_) => Err(FieldErr::WrongType),
        }
    }

    /// Read an optional small non-negative integer field.
    pub fn get_opt_u32(&self, key: &str) -> (r: Result<Option<u32>, FieldErr>)
        ensures
            match spec_opt_u32(self@, key@) {
                Ok(n) => r matches Ok(n2) && n2 == n,
                Err(e) => r matches Err(e2) && e2 == e,
            },
    {
        match self.get(key) {
            None => Ok(None),
            Some(JsonValue::Null) => Ok(None),
            Some(JsonValue::Int(n)) => {
                if 0 <= *n && *n <= u32::MAX as i64 {
                    Ok(Some(*n as u32))
                } else {
                    Err(FieldErr::WrongType)
                }
            },
            Some(_) => Err(FieldErr::WrongType),
        }
    }
}

/// String slice equality by contents.
pub fn str_eq(a: &str, b: &str) -> (r: bool)
    ensures
        r == (a@ == b@),
{
    let x: String = a.to_owned();
    let y: String = b.to_owned();
    x == y
}

/// Append a field to an object under construction.
pub fn obj_push(fields: &mut Vec<(String, JsonValue)>, key: &str, v: JsonValue)
    ensures
        view_obj(final(fields)@) == view_obj(old(fields)@).push((key@, v@)),
{
    let ghost oldf = fields@;
    let ghost kv = (key@, v@);
    fields.push((key.to_owned(), v));
    proof {
        lemma_view_obj(oldf);
        lemma_view_obj(fields@);
        assert(view_obj(fields@) =~= view_obj(oldf).push(kv));
    }
}

} // verus!
