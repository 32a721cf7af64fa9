//! A plain data model for decoded JSON values.
//!
//! The engine receives every request body and parameter block as a
//! `JsonValue`; the transport layer is responsible for turning raw text
//! into this shape and back.  Numbers that fit `i64` are held as `Int`;
//! any other number keeps its decimal text in `Num`, so that no value is
//! silently lost.  Object members keep their wire order.
//!
//! Specifications speak about `JsonSpec`, the mathematical mirror of
//! `JsonValue` reached through `@`.

use vstd::prelude::*;

use crate::text::str_eq;

verus! {

/// A decoded JSON value.
#[derive(Debug, PartialEq, Eq)]
pub enum JsonValue {
    /// JSON `null`.
    Null,
    /// A JSON boolean.
    Bool(bool),
    /// A JSON number that fits a 64-bit signed integer.
    Int(i64),
    /// Any other JSON number, kept as its decimal text.
    Num(String),
    /// A JSON string.
    Str(String),
    /// A JSON array.
    Arr(Vec<JsonValue>),
    /// A JSON object: members in wire order.
    Obj(Vec<(String, JsonValue)>),
}

/// The mathematical value of a `JsonValue`.
#[verifier::ext_equal]
pub enum JsonSpec {
    Null,
    Bool(bool),
    Int(int),
    Num(Seq<char>),
    Str(Seq<char>),
    Arr(Seq<JsonSpec>),
    Obj(Seq<(Seq<char>, JsonSpec)>),
}

/// The mathematical value of a `JsonValue`: arrays and objects become
/// sequences of the values of their parts.
pub open spec fn jview(v: JsonValue) -> JsonSpec
    decreases v,
{
    match v {
        JsonValue::Null => JsonSpec::Null,
        JsonValue::Bool(b) => JsonSpec::Bool(b),
        JsonValue::Int(i) => JsonSpec::Int(i as int),
        JsonValue::Num(s) => JsonSpec::Num(s@),
        JsonValue::Str(s) => JsonSpec::Str(s@),
        JsonValue::Arr(items) => JsonSpec::Arr(
            Seq::new(
                items@.len(),
                |i: int|
                    if 0 <= i < items@.len() {
                        jview(items@[i])
                    } else {
                        JsonSpec::Null
                    },
            ),
        ),
        JsonValue::Obj(entries) => JsonSpec::Obj(
            Seq::new(
                entries@.len(),
                |i: int|
                    if 0 <= i < entries@.len() {
                        (entries@[i].0@, jview(entries@[i].1))
                    } else {
                        (Seq::empty(), JsonSpec::Null)
                    },
            ),
        ),
    }
}

impl View for JsonValue {
    type V = JsonSpec;

    open spec fn view(&self) -> JsonSpec {
        jview(*self)
    }
}

impl DeepView for JsonValue {
    type V = JsonSpec;

    open spec fn deep_view(&self) -> JsonSpec {
        jview(*self)
    }
}

/// The member list of a JSON object, in wire order.
pub type JsonMembers = Vec<(String, JsonValue)>;

/// The value of an array is the list of its items' values.
pub proof fn lemma_arr_view(items: Vec<JsonValue>)
    ensures
        JsonValue::Arr(items)@ == JsonSpec::Arr(items.deep_view()),
{
    assert(JsonValue::Arr(items)@->Arr_0 =~= items.deep_view());
}


/// The value bound to `key` in an object member list: the first member
/// whose name equals `key`, if any.
pub open spec fn spec_member_lookup(members: Seq<(Seq<char>, JsonSpec)>, key: Seq<char>) -> Option<
    JsonSpec,
>
    decreases members.len(),
{
    if members.len() == 0 {
        None
    } else if members[0].0 == key {
        Some(members[0].1)
    } else {
        spec_member_lookup(members.drop_first(), key)
    }
}

/// The value bound to `key` if `v` is an object that has such a member.
pub open spec fn spec_get(v: JsonSpec, key: Seq<char>) -> Option<JsonSpec> {
    match v {
        JsonSpec::Obj(members) => spec_member_lookup(members, key),
        _ => None,
    }
}

impl Clone for JsonValue {
    /// A deep copy with the same mathematical value.
    fn clone(&self) -> (res: Self)
        ensures
            res@ == self@,
        decreases *self,
    {
        match self {
            JsonValue::Null => JsonValue::Null,
            JsonValue::Bool(b) => JsonValue::Bool(*b),
            JsonValue::Int(i) => JsonValue::Int(*i),
            JsonValue::Num(s) => JsonValue::Num(s.clone()),
            JsonValue::Str(s) => JsonValue::Str(s.clone()),
            JsonValue::Arr(items) => {
                let mut out: Vec<JsonValue> = Vec::new();
                let mut i: usize = 0;
                while i < items.len()
                    invariant
                        i <= items@.len(),
                        out@.len() == i as nat,
                        forall|j: int| 0 <= j < i ==> jview(#[trigger] out@[j]) == jview(
                            items@[j],
                        ),
                        *self == JsonValue::Arr(*items),
                    decreases items@.len() - i,
                {
                    proof {
                        assert(decreases_to!(*self => (*self)->Arr_0));
                        assert(decreases_to!(*items => items@));
                        assert(decreases_to!(items@ => items@[i as int]));
                    }
                    out.push(items[i].clone());
                    i += 1;
                }
                let r = JsonValue::Arr(out);
                proof {
                    assert(r@->Arr_0 =~= self@->Arr_0);
                    assert(r@ =~= self@);
                }
                r
            },
            JsonValue::Obj(entries) => {
                let mut out: Vec<(String, JsonValue)> = Vec::new();
                let mut i: usize = 0;
                while i < entries.len()
                    invariant
                        i <= entries@.len(),
                        out@.len() == i as nat,
                        forall|j: int| 0 <= j < i ==> (#[trigger] out@[j]).0@ == entries@[j].0@
                            && jview(out@[j].1) == jview(entries@[j].1),
                        *self == JsonValue::Obj(*entries),
                    decreases entries@.len() - i,
                {
                    proof {
                        assert(decreases_to!(*self => (*self)->Obj_0));
                        assert(decreases_to!(*entries => entries@));
                        assert(decreases_to!(entries@ => entries@[i as int]));
                        assert(decreases_to!(entries@[i as int] => entries@[i as int].1));
                    }
                    let pair = (entries[i].0.clone(), entries[i].1.clone());
                    out.push(pair);
                    i += 1;
                }
                let r = JsonValue::Obj(out);
                proof {
                    assert(r@->Obj_0 =~= self@->Obj_0);
                    assert(r@ =~= self@);
                }
                r
            },
        }
    }
}

/// Whether two values have the same mathematical value.
pub fn json_eq(a: &JsonValue, b: &JsonValue) -> (r: bool)
    ensures
        r == (a@ == b@),
    decreases *a,
{
    match (a, b) {
        (JsonValue::Null, JsonValue::Null) => true,
        (JsonValue::Bool(x), JsonValue::Bool(y)) => x == y,
        (JsonValue::Int(x), JsonValue::Int(y)) => x == y,
        (JsonValue::Num(x), JsonValue::Num(y)) => str_eq(x.as_str(), y.as_str()),
        (JsonValue::Str(x), JsonValue::Str(y)) => str_eq(x.as_str(), y.as_str()),
        (JsonValue::Arr(xs), JsonValue::Arr(ys)) => {
            if xs.len() != ys.len() {
                proof {
                    assert(a@->Arr_0.len() == xs@.len());
                    assert(b@->Arr_0.len() == ys@.len());
                }
                return false;
            }
            let mut i: usize = 0;
            while i < xs.len()
                invariant
                    i <= xs@.len(),
                    xs@.len() == ys@.len(),
                    *a == JsonValue::Arr(*xs),
                    *b == JsonValue::Arr(*ys),
                    forall|j: int| 0 <= j < i ==> jview(#[trigger] xs@[j]) == jview(ys@[j]),
                decreases xs@.len() - i,
            {
                proof {
                    assert(decreases_to!(*a => (*a)->Arr_0));
                    assert(decreases_to!(*xs => xs@));
                    assert(decreases_to!(xs@ => xs@[i as int]));
                }
                if !json_eq(&xs[i], &ys[i]) {
                    proof {
                        assert(a@->Arr_0[i as int] != b@->Arr_0[i as int]);
                    }
                    return false;
                }
                i += 1;
            }
            proof {
                assert(a@->Arr_0 =~= b@->Arr_0);
            }
            true
        },
        (JsonValue::Obj(xs), JsonValue::Obj(ys)) => {
            if xs.len() != ys.len() {
                proof {
                    assert(a@->Obj_0.len() == xs@.len());
                    assert(b@->Obj_0.len() == ys@.len());
                }
                return false;
            }
            let mut i: usize = 0;
            while i < xs.len()
                invariant
                    i <= xs@.len(),
                    xs@.len() == ys@.len(),
                    *a == JsonValue::Obj(*xs),
                    *b == JsonValue::Obj(*ys),
                    forall|j: int| 0 <= j < i ==> (#[trigger] xs@[j]).0@ == ys@[j].0@ && jview(
                        xs@[j].1,
                    ) == jview(ys@[j].1),
                decreases xs@.len() - i,
            {
                proof {
                    assert(decreases_to!(*a => (*a)->Obj_0));
                    assert(decreases_to!(*xs => xs@));
                    assert(decreases_to!(xs@ => xs@[i as int]));
                    assert(decreases_to!(xs@[i as int] => xs@[i as int].1));
                }
                if !str_eq(xs[i].0.as_str(), ys[i].0.as_str()) {
                    proof {
                        assert(a@->Obj_0[i as int].0 != b@->Obj_0[i as int].0);
                    }
                    return false;
                }
                if !json_eq(&xs[i].1, &ys[i].1) {
                    proof {
                        assert(a@->Obj_0[i as int].1 != b@->Obj_0[i as int].1);
                    }
                    return false;
                }
                i += 1;
            }
            proof {
                assert(a@->Obj_0 =~= b@->Obj_0);
            }
            true
        },
        _ => false,
    }
}

impl JsonValue {
    /// Whether this value is a JSON object.
    pub fn is_object(&self) -> (r: bool)
        ensures
            r == (self@ is Obj),
    {
        match self {
            JsonValue::Obj(_) => true,
            _ => false,
        }
    }

    /// Whether this value is JSON `null`.
    pub fn is_null(&self) -> (r: bool)
        ensures
            r == (self@ is Null),
    {
        match self {
            JsonValue::Null => true,
            _ => false,
        }
    }

    /// The string slice held by a JSON string.
    pub fn as_str(&self) -> (r: Option<&str>)
        ensures
            match r {
                Some(s) => self@ == JsonSpec::Str(s@),
                None => !(self@ is Str),
            },
    {
        match self {
            JsonValue::Str(s) => Some(s.as_str()),
            _ => None,
        }
    }

    /// The member bound to `key`, if this value is an object that has one.
    pub fn get<'a>(&'a self, key: &str) -> (r: Option<&'a JsonValue>)
        ensures
            match r {
                Some(v) => spec_get(self@, key@) == Some(v@),
                None => spec_get(self@, key@) is None,
            },
    {
        match self {
            JsonValue::Obj(entries) => {
                let ghost members = self@->Obj_0;
                proof {
                    assert(members.skip(0) =~= members);
                }
                let mut i: usize = 0;
                while i < entries.len()
                    invariant
                        i <= entries@.len(),
                        *self == JsonValue::Obj(*entries),
                        members == self@->Obj_0,
                        members.len() == entries@.len(),
                        forall|j: int| 0 <= j < entries@.len() ==> #[trigger] members[j]
                            == (entries@[j].0@, jview(entries@[j].1)),
                        spec_member_lookup(members, key@) == spec_member_lookup(
                            members.skip(i as int),
                            key@,
                        ),
                    decreases entries@.len() - i,
                {
                    proof {
                        assert(members.skip(i as int)[0] == members[i as int]);
                    }
                    if str_eq(entries[i].0.as_str(), key) {
                        return Some(&entries[i].1);
                    }
                    proof {
                        assert(members.skip(i as int).drop_first() =~= members.skip(i as int + 1));
                    }
                    i += 1;
                }
                None
            },
            _ => None,
        }
    }
}

} // verus!
