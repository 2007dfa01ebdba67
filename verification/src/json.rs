//! JSON values as the runtime reads them out of step outputs: objects are
//! lists of members, and numbers keep what the runtime may take of them.
use vstd::prelude::*;

use crate::text::{chars_of, str_eq};

verus! {

/// A JSON number: an unsigned or a signed integer, or another number,
/// together with its value where it is a finite, non-negative whole number
/// (saturated at `u64::MAX`).
#[derive(Clone, Debug, PartialEq, Eq)]
pub enum JsonNumber {
    U64(u64),
    I64(i64),
    Float { whole: Option<u64> },
}

/// A JSON value.
#[derive(Debug)]
pub enum JsonValue {
    Null,
    Bool(bool),
    Number(JsonNumber),
    String(String),
    Array(Vec<JsonValue>),
    Object(Vec<(String, JsonValue)>),
}

/// The value of the first member of `object` named `key`.
pub open spec fn json_get(object: Seq<(String, JsonValue)>, key: Seq<char>) -> Option<JsonValue>
    decreases object.len(),
{
    if object.len() == 0 {
        None
    } else if object[0].0@ == key {
        Some(object[0].1)
    } else {
        json_get(object.drop_first(), key)
    }
}

/// The object that `path` leads to from `object`: each segment names a
/// member that must itself be an object.
pub open spec fn json_path(object: Seq<(String, JsonValue)>, path: Seq<Seq<char>>) -> Option<
    Seq<(String, JsonValue)>,
>
    decreases path.len(),
{
    if path.len() == 0 {
        Some(object)
    } else {
        match json_get(object, path[0]) {
            Some(JsonValue::Object(next)) => json_path(next@, path.drop_first()),
            _ => None,
        }
    }
}

/// The non-empty string that member `key` holds.
pub open spec fn json_string_field(object: Seq<(String, JsonValue)>, key: Seq<char>) -> Option<
    Seq<char>,
> {
    match json_get(object, key) {
        Some(JsonValue::String(s)) => if s@.len() > 0 {
            Some(s@)
        } else {
            None
        },
        _ => None,
    }
}

/// The boolean that member `key` holds.
pub open spec fn json_bool_field(object: Seq<(String, JsonValue)>, key: Seq<char>) -> Option<bool> {
    match json_get(object, key) {
        Some(JsonValue::Bool(b)) => Some(b),
        _ => None,
    }
}

/// The `u64` that member `key` holds: an unsigned integer, a non-negative
/// signed one, or a whole non-negative number.
pub open spec fn json_u64_field(object: Seq<(String, JsonValue)>, key: Seq<char>) -> Option<u64> {
    match json_get(object, key) {
        Some(JsonValue::Number(JsonNumber::U64(v))) => Some(v),
        Some(JsonValue::Number(JsonNumber::I64(v))) => if v >= 0 {
            Some(v as u64)
        } else {
            None
        },
        Some(JsonValue::Number(JsonNumber::Float { whole })) => whole,
        _ => None,
    }
}

/// The member of `object` named `key`.
pub fn object_get<'a>(object: &'a Vec<(String, JsonValue)>, key: &str) -> (r: Option<&'a JsonValue>)
    ensures
        match r {
            Some(v) => json_get(object@, key@) == Some(*v),
            None => json_get(object@, key@) is None,
        },
{
    let mut i: usize = 0;
    assert(object@.skip(0) =~= object@);
    while i < object.len()
        invariant
            i <= object.len(),
            json_get(object@, key@) == json_get(object@.skip(i as int), key@),
        decreases object.len() - i,
    {
        assert(object@.skip(i as int)[0] == object@[i as int]);
        assert(object@.skip(i as int).drop_first() =~= object@.skip(i + 1));
        if str_eq(object[i].0.as_str(), key) {
            return Some(&object[i].1);
        }
        i += 1;
    }
    None
}

/// The object that `path` leads to from `object`.
pub fn object_path<'a>(object: &'a Vec<(String, JsonValue)>, path: &[&str]) -> (r: Option<
    &'a Vec<(String, JsonValue)>,
>)
    ensures
        match r {
            Some(o) => json_path(object@, path@.map_values(|s: &str| s@)) == Some(o@),
            None => json_path(object@, path@.map_values(|s: &str| s@)) is None,
        },
{
    let ghost segments = path@.map_values(|s: &str| s@);
    let mut current = object;
    let mut i: usize = 0;
    assert(segments.skip(0) =~= segments);
    while i < path.len()
        invariant
            i <= path.len(),
            segments == path@.map_values(|s: &str| s@),
            json_path(object@, segments) == json_path(current@, segments.skip(i as int)),
        decreases path.len() - i,
    {
        assert(segments.skip(i as int)[0] == path@[i as int]@);
        assert(segments.skip(i as int).drop_first() =~= segments.skip(i + 1));
        match object_get(current, path[i]) {
            Some(JsonValue::Object(next)) => {
                current = next;
            },
            _ => {
                return None;
            },
        }
        i += 1;
    }
    assert(segments.skip(i as int) =~= Seq::<Seq<char>>::empty());
    Some(current)
}

/// The non-empty string that member `key` holds.
pub fn string_field<'a>(object: &'a Vec<(String, JsonValue)>, key: &str) -> (r: Option<&'a str>)
    ensures
        match r {
            Some(s) => json_string_field(object@, key@) == Some(s@),
            None => json_string_field(object@, key@) is None,
        },
{
    match object_get(object, key) {
        Some(JsonValue::String(value)) => {
            if chars_of(value.as_str()).len() > 0 {
                Some(value.as_str())
            } else {
                None
            }
        },
        _ => None,
    }
}

/// The boolean that member `key` holds.
pub fn bool_field(object: &Vec<(String, JsonValue)>, key: &str) -> (r: Option<bool>)
    ensures
        r == json_bool_field(object@, key@),
{
    match object_get(object, key) {
        Some(JsonValue::Bool(value)) => Some(*value),
        _ => None,
    }
}

/// The `u64` that member `key` holds.
pub fn u64_field(object: &Vec<(String, JsonValue)>, key: &str) -> (r: Option<u64>)
    ensures
        r == json_u64_field(object@, key@),
{
    match object_get(object, key) {
        Some(JsonValue::Number(JsonNumber::U64(value))) => Some(*value),
        Some(JsonValue::Number(JsonNumber::I64(value))) => {
            if *value >= 0 {
                Some(*value as u64)
            } else {
                None
            }
        },
        Some(JsonValue::Number(JsonNumber::Float { whole })) => *whole,
        _ => None,
    }
}

/// `object` has a member named `key`.
pub fn contains_key(object: &Vec<(String, JsonValue)>, key: &str) -> (b: bool)
    ensures
        b == json_get(object@, key@) is Some,
{
    object_get(object, key).is_some()
}

/// The object that member `key` holds.
pub open spec fn json_member_object(object: Seq<(String, JsonValue)>, key: Seq<char>) -> Option<
    Seq<(String, JsonValue)>,
> {
    match json_get(object, key) {
        Some(JsonValue::Object(next)) => Some(next@),
        _ => None,
    }
}

/// The object that member `key` holds.
pub fn member_object<'a>(object: &'a Vec<(String, JsonValue)>, key: &str) -> (r: Option<
    &'a Vec<(String, JsonValue)>,
>)
    ensures
        match r {
            Some(o) => json_member_object(object@, key@) == Some(o@),
            None => json_member_object(object@, key@) is None,
        },
{
    match object_get(object, key) {
        Some(JsonValue::Object(next)) => Some(next),
        _ => None,
    }
}


/// Two JSON values are the same document: same kinds and values, arrays
/// element by element, objects with as many members and each member of the
/// first matched by the member of that name in the second. Numbers are equal
/// where both are the same unsigned or the same signed integer; numbers that
/// are not integers are never taken as equal.
pub open spec fn json_eq(a: JsonValue, b: JsonValue) -> bool
    decreases a,
{
    match a {
        JsonValue::Null => b is Null,
        JsonValue::Bool(x) => b matches JsonValue::Bool(y) && x == y,
        JsonValue::Number(JsonNumber::U64(x)) => b matches JsonValue::Number(JsonNumber::U64(y))
            && x == y,
        JsonValue::Number(JsonNumber::I64(x)) => b matches JsonValue::Number(JsonNumber::I64(y))
            && x == y,
        JsonValue::Number(JsonNumber::Float { .. }) => false,
        JsonValue::String(x) => b matches JsonValue::String(y) && x@ == y@,
        JsonValue::Array(xs) => match b {
            JsonValue::Array(ys) => xs@.len() == ys@.len() && forall|i: int|
                0 <= i < xs@.len() ==> json_eq(#[trigger] xs@[i], ys@[i]),
            _ => false,
        },
        JsonValue::Object(xm) => match b {
            JsonValue::Object(ym) => xm@.len() == ym@.len() && forall|i: int|
                0 <= i < xm@.len() ==> match json_get(ym@, (#[trigger] xm@[i]).0@) {
                    Some(v) => json_eq(xm@[i].1, v),
                    None => false,
                },
            _ => false,
        },
    }
}

/// Whether two JSON values are the same document (see `json_eq`).
pub fn json_equal(a: &JsonValue, b: &JsonValue) -> (r: bool)
    ensures
        r == json_eq(*a, *b),
    decreases a,
{
    match a {
        JsonValue::Null => match b {
            JsonValue::Null => true,
            _ => false,
        },
        JsonValue::Bool(x) => match b {
            JsonValue::Bool(y) => *x == *y,
            _ => false,
        },
        JsonValue::Number(JsonNumber::U64(x)) => match b {
            JsonValue::Number(JsonNumber::U64(y)) => *x == *y,
            _ => false,
        },
        JsonValue::Number(JsonNumber::I64(x)) => match b {
            JsonValue::Number(JsonNumber::I64(y)) => *x == *y,
            _ => false,
        },
        JsonValue::Number(JsonNumber::Float { .. }) => false,
        JsonValue::String(x) => match b {
            JsonValue::String(y) => str_eq(x.as_str(), y.as_str()),
            _ => false,
        },
        JsonValue::Array(xs) => match b {
            JsonValue::Array(ys) => {
                if xs.len() != ys.len() {
                    return false;
                }
                let mut i: usize = 0;
                while i < xs.len()
                    invariant
                        i <= xs@.len(),
                        xs@.len() == ys@.len(),
                        *a == JsonValue::Array(*xs),
                        *b == JsonValue::Array(*ys),
                        forall|k: int| 0 <= k < i ==> json_eq(#[trigger] xs@[k], ys@[k]),
                    decreases xs.len() - i,
                {
                    proof {
                        assert(decreases_to!(*a => a->Array_0));
                        assert(decreases_to!(a->Array_0 => xs@));
                        assert(decreases_to!(xs@ => xs@[i as int]));
                    }
                    if !json_equal(&xs[i], &ys[i]) {
                        assert(!json_eq(xs@[i as int], ys@[i as int]));
                        return false;
                    }
                    i += 1;
                }
                true
            },
            _ => false,
        },
        JsonValue::Object(xm) => match b {
            JsonValue::Object(ym) => {
                if xm.len() != ym.len() {
                    return false;
                }
                let mut i: usize = 0;
                while i < xm.len()
                    invariant
                        i <= xm@.len(),
                        xm@.len() == ym@.len(),
                        *a == JsonValue::Object(*xm),
                        *b == JsonValue::Object(*ym),
                        forall|k: int|
                            0 <= k < i ==> match json_get(ym@, (#[trigger] xm@[k]).0@) {
                                Some(v) => json_eq(xm@[k].1, v),
                                None => false,
                            },
                    decreases xm.len() - i,
                {
                    proof {
                        assert(decreases_to!(*a => a->Object_0));
                        assert(decreases_to!(a->Object_0 => xm@));
                        assert(decreases_to!(xm@ => xm@[i as int]));
                        assert(decreases_to!(xm@[i as int] => xm@[i as int].1));
                    }
                    match object_get(ym, xm[i].0.as_str()) {
                        Some(v) => {
                            if !json_equal(&xm[i].1, v) {
                                assert(!json_eq(xm@[i as int].1, *v));
                                return false;
                            }
                        },
                        None => {
                            return false;
                        },
                    }
                    i += 1;
                }
                true
            },
            _ => false,
        },
    }
}


/// A JSON document made of integers, strings, booleans and nulls, whose
/// objects never repeat a member name.
pub open spec fn plain_json(v: JsonValue) -> bool
    decreases v,
{
    match v {
        JsonValue::Number(JsonNumber::Float { .. }) => false,
        JsonValue::Array(xs) => forall|i: int| 0 <= i < xs@.len() ==> plain_json(#[trigger] xs@[i]),
        JsonValue::Object(m) => (forall|i: int, j: int|
            0 <= i < m@.len() && 0 <= j < m@.len() && i != j ==> (#[trigger] m@[i]).0@
                != (#[trigger] m@[j]).0@) && forall|i: int|
            0 <= i < m@.len() ==> plain_json((#[trigger] m@[i]).1),
        _ => true,
    }
}

proof fn lemma_json_get_first(m: Seq<(String, JsonValue)>, i: int)
    requires
        0 <= i < m.len(),
        forall|j: int| 0 <= j < i ==> (#[trigger] m[j]).0@ != m[i].0@,
    ensures
        json_get(m, m[i].0@) == Some(m[i].1),
    decreases i,
{
    if i > 0 {
        let rest = m.drop_first();
        assert forall|j: int| 0 <= j < i - 1 implies (#[trigger] rest[j]).0@ != rest[i - 1].0@ by {
            assert(rest[j] == m[j + 1]);
        }
        assert(m[0].0@ != m[i].0@);
        lemma_json_get_first(rest, i - 1);
    }
}

/// A plain JSON document is the same document as itself.
pub proof fn lemma_json_eq_reflexive(v: JsonValue)
    requires
        plain_json(v),
    ensures
        json_eq(v, v),
    decreases v,
{
    match v {
        JsonValue::Array(xs) => {
            assert forall|i: int| 0 <= i < xs@.len() implies json_eq(#[trigger] xs@[i], xs@[i]) by {
                assert(decreases_to!(v => v->Array_0));
                assert(decreases_to!(v->Array_0 => xs@));
                assert(decreases_to!(xs@ => xs@[i]));
                lemma_json_eq_reflexive(xs@[i]);
            }
        },
        JsonValue::Object(m) => {
            assert forall|i: int| 0 <= i < m@.len() implies match json_get(
                m@,
                (#[trigger] m@[i]).0@,
            ) {
                Some(w) => json_eq(m@[i].1, w),
                None => false,
            } by {
                assert forall|j: int| 0 <= j < i implies (#[trigger] m@[j]).0@ != m@[i].0@ by {}
                lemma_json_get_first(m@, i);
                assert(decreases_to!(v => v->Object_0));
                assert(decreases_to!(v->Object_0 => m@));
                assert(decreases_to!(m@ => m@[i]));
                assert(decreases_to!(m@[i] => m@[i].1));
                lemma_json_eq_reflexive(m@[i].1);
            }
        },
        _ => {},
    }
}

} // verus!
