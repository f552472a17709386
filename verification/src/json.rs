//! A JSON document as plain values, and the ways the library reads one.
//!
//! Objects keep their members in order; reading a member takes the first one
//! with the asked key. Indexing something that is not an object, or a key
//! that is absent, gives `Null`, as JSON indexing does elsewhere.

use vstd::prelude::*;
use crate::text::text_eq;

verus! {

/// A JSON number as the library reads it: its value as an `i64` when it is
/// an integer in range, and the IEEE-754 bits of its value as an `f64`.
pub struct JsonNumber {
    pub int: Option<i64>,
    pub float_bits: u64,
}

/// A JSON document.
pub enum JsonValue {
    Null,
    Bool(bool),
    Number(JsonNumber),
    Str(String),
    Array(Vec<JsonValue>),
    Object(Vec<(String, JsonValue)>),
}

/// The value of the first member of `fields` whose key is `key`.
pub open spec fn member_of(fields: Seq<(String, JsonValue)>, key: Seq<char>) -> Option<JsonValue>
    decreases fields.len(),
{
    if fields.len() == 0 {
        None
    } else if fields[0].0@ == key {
        Some(fields[0].1)
    } else {
        member_of(fields.drop_first(), key)
    }
}

/// The member `key` of `v`, when `v` is an object that has one.
pub open spec fn get_spec(v: JsonValue, key: Seq<char>) -> Option<JsonValue> {
    match v {
        JsonValue::Object(fields) => member_of(fields@, key),
        _ => None,
    }
}

/// `v[key]`: the member, or `Null` when there is none.
pub open spec fn index_spec(v: JsonValue, key: Seq<char>) -> JsonValue {
    match get_spec(v, key) {
        Some(x) => x,
        None => JsonValue::Null,
    }
}

/// The text of a string value.
pub open spec fn as_str_spec(v: JsonValue) -> Option<Seq<char>> {
    match v {
        JsonValue::Str(s) => Some(s@),
        _ => None,
    }
}

/// The value of an integer that fits in an `i64`.
pub open spec fn as_i64_spec(v: JsonValue) -> Option<i64> {
    match v {
        JsonValue::Number(n) => n.int,
        _ => None,
    }
}

/// The bits of a number read as an `f64`.
pub open spec fn as_f64_bits_spec(v: JsonValue) -> Option<u64> {
    match v {
        JsonValue::Number(n) => Some(n.float_bits),
        _ => None,
    }
}

/// The first element of an array.
pub open spec fn first_spec(v: JsonValue) -> Option<JsonValue> {
    match v {
        JsonValue::Array(items) => if items@.len() > 0 { Some(items@[0]) } else { None },
        _ => None,
    }
}

/// `Some(x)` read through a reference.
pub open spec fn opt_ref(r: Option<&JsonValue>) -> Option<JsonValue> {
    match r {
        Some(x) => Some(*x),
        None => None,
    }
}

/// The member `key` of `v`, when `v` is an object that has one.
pub fn json_get<'a>(v: &'a JsonValue, key: &str) -> (r: Option<&'a JsonValue>)
    ensures
        opt_ref(r) == get_spec(*v, key@),
{
    match v {
        JsonValue::Object(fields) => {
            let mut i: usize = 0;
            assert(get_spec(*v, key@) == member_of(fields@, key@));
            assert(fields@.skip(0) =~= fields@);
            while i < fields.len()
                invariant
                    i <= fields.len(),
                    get_spec(*v, key@) == member_of(fields@.skip(i as int), key@),
                decreases fields.len() - i,
            {
                let ghost rest = fields@.skip(i as int);
                assert(rest.drop_first() =~= fields@.skip(i as int + 1));
                assert(rest[0] == fields@[i as int]);
                let k = &fields[i].0;
                if text_eq(k.as_str(), key) {
                    assert(rest[0].0@ == key@);
                    assert(member_of(rest, key@) == Some(rest[0].1));
                    return Some(&fields[i].1);
                }
                i = i + 1;
            }
            None
        },
        _ => None,
    }
}

/// The text of `v[key]`, when that is a string.
pub fn json_str_at(v: &JsonValue, key: &str) -> (r: Option<String>)
    ensures
        match r {
            Some(s) => as_str_spec(index_spec(*v, key@)) == Some(s@),
            None => as_str_spec(index_spec(*v, key@)) is None,
        },
{
    match json_get(v, key) {
        Some(JsonValue::Str(s)) => Some(s.clone()),
        _ => None,
    }
}

/// The `i64` value of `v[key]`, when that is an integer in range.
pub fn json_i64_at(v: &JsonValue, key: &str) -> (r: Option<i64>)
    ensures
        r == as_i64_spec(index_spec(*v, key@)),
{
    match json_get(v, key) {
        Some(JsonValue::Number(n)) => n.int,
        _ => None,
    }
}

/// The `f64` bits of `v[key]`, when that is a number.
pub fn json_f64_bits_at(v: &JsonValue, key: &str) -> (r: Option<u64>)
    ensures
        r == as_f64_bits_spec(index_spec(*v, key@)),
{
    match json_get(v, key) {
        Some(JsonValue::Number(n)) => Some(n.float_bits),
        _ => None,
    }
}

/// The first element of the array `v[key]`.
pub fn json_first_at<'a>(v: &'a JsonValue, key: &str) -> (r: Option<&'a JsonValue>)
    ensures
        opt_ref(r) == first_spec(index_spec(*v, key@)),
{
    match json_get(v, key) {
        Some(JsonValue::Array(items)) => {
            if items.len() > 0 {
                Some(&items[0])
            } else {
                None
            }
        },
        _ => None,
    }
}

} // verus!
