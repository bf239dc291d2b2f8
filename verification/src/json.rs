//! A JSON document, as the API responses and the container metadata carry
//! it, and the lookups that decoding makes into it. A lookup that finds
//! nothing gives `None`, the way indexing a JSON value gives `null`.
use vstd::prelude::*;

use crate::text::str_eq;

verus! {

/// A JSON number: a non-negative integer, a negative integer, or a number
/// with a fraction or exponent (whose value no lookup reads).
#[derive(Clone, Copy, Debug, PartialEq, Eq, Structural)]
pub enum JsonNumber {
    PosInt(u64),
    NegInt(i64),
    Float,
}

/// A JSON value. An object keeps its members in the order given; where a
/// key occurs more than once, lookups read its first member.
#[derive(Debug)]
pub enum Json {
    Null,
    Bool(bool),
    Number(JsonNumber),
    String(String),
    Array(Vec<Json>),
    Object(Vec<(String, Json)>),
}

/// The value of the first member of `members` named `key`.
pub open spec fn member(members: Seq<(String, Json)>, key: Seq<char>) -> Option<Json>
    decreases members.len(),
{
    if members.len() == 0 {
        None
    } else if members[0].0@ == key {
        Some(members[0].1)
    } else {
        member(members.drop_first(), key)
    }
}

/// `v[key]`: the member `key` of an object, `None` for anything else.
pub open spec fn field(v: Option<Json>, key: Seq<char>) -> Option<Json> {
    match v {
        Some(Json::Object(members)) => member(members@, key),
        _ => None,
    }
}

/// `v[i]`: element `i` of an array, `None` for anything else.
pub open spec fn element(v: Option<Json>, i: int) -> Option<Json> {
    match v {
        Some(Json::Array(items)) => if 0 <= i < items@.len() {
            Some(items@[i])
        } else {
            None
        },
        _ => None,
    }
}

/// `v.as_u64()`: a non-negative integer.
pub open spec fn json_u64(v: Option<Json>) -> Option<u64> {
    match v {
        Some(Json::Number(JsonNumber::PosInt(n))) => Some(n),
        _ => None,
    }
}

/// `v.as_i64()`: an integer that fits in an `i64`.
pub open spec fn json_i64(v: Option<Json>) -> Option<i64> {
    match v {
        Some(Json::Number(JsonNumber::PosInt(n))) => if n <= i64::MAX {
            Some(n as i64)
        } else {
            None
        },
        Some(Json::Number(JsonNumber::NegInt(n))) => Some(n),
        _ => None,
    }
}

/// `v.as_str()`: the characters of a string.
pub open spec fn json_str(v: Option<Json>) -> Option<Seq<char>> {
    match v {
        Some(Json::String(s)) => Some(s@),
        _ => None,
    }
}

/// `v.as_array()`: the elements of an array.
pub open spec fn json_array(v: Option<Json>) -> Option<Seq<Json>> {
    match v {
        Some(Json::Array(items)) => Some(items@),
        _ => None,
    }
}

/// `v.is_null()`: `null`, or nothing at all.
pub open spec fn json_is_null(v: Option<Json>) -> bool {
    match v {
        None => true,
        Some(Json::Null) => true,
        _ => false,
    }
}

/// `v.as_u64().unwrap_or(0)`.
pub open spec fn u64_or_zero(v: Option<Json>) -> u64 {
    match json_u64(v) {
        Some(n) => n,
        None => 0,
    }
}

/// `v.as_str().unwrap_or("")`.
pub open spec fn str_or_empty(v: Option<Json>) -> Seq<char> {
    match json_str(v) {
        Some(s) => s,
        None => Seq::empty(),
    }
}

/// The readings of a JSON value: a number reads as a `u64` only when it is
/// a non-negative integer, as an `i64` only when it is an integer in the
/// `i64` range, a string reads as its characters, an array as its
/// elements, and only `null` or nothing at all reads as null; a reading of
/// any other kind of value gives nothing.
pub proof fn lemma_json_readings(v: Option<Json>)
    ensures
        json_u64(v) matches Some(n) ==> v == Some(Json::Number(JsonNumber::PosInt(n))),
        v matches Some(Json::Number(JsonNumber::PosInt(n))) ==> json_u64(v) is Some,
        json_i64(v) matches Some(n) ==> (v == Some(Json::Number(JsonNumber::NegInt(n))) || (n >= 0 && v == Some(
            Json::Number(JsonNumber::PosInt(n as u64)),
        ))),
        v matches Some(Json::Number(JsonNumber::NegInt(n))) ==> json_i64(v) == Some(n),
        v matches Some(Json::Number(JsonNumber::PosInt(n))) ==> (n <= 0x7fff_ffff_ffff_ffff ==> json_i64(v)
            == Some(n as i64)),
        json_str(v) matches Some(s) ==> (v matches Some(Json::String(t)) && t@ == s),
        v matches Some(Json::String(t)) ==> json_str(v) == Some(t@),
        json_array(v) matches Some(items) ==> (v matches Some(Json::Array(a)) && a@ == items),
        v matches Some(Json::Array(a)) ==> json_array(v) == Some(a@),
        json_is_null(v) <==> (v is None || v == Some(Json::Null)),
{
}

/// The value behind an optional reference.
pub open spec fn deref_json(r: Option<&Json>) -> Option<Json> {
    match r {
        Some(x) => Some(*x),
        None => None,
    }
}

/// `v[key]`.
pub fn get_field<'a>(v: Option<&'a Json>, key: &str) -> (r: Option<&'a Json>)
    ensures
        deref_json(r) == field(deref_json(v), key@),
{
    let j = match v {
        Some(j) => j,
        None => {
            return None;
        },
    };
    match j {
        Json::Object(members) => {
            let mut i: usize = 0;
            assert(members@.subrange(0, members@.len() as int) =~= members@);
            while i < members.len()
                invariant
                    0 <= i <= members@.len(),
                    field(deref_json(v), key@) == member(members@, key@),
                    member(members@, key@) == member(members@.subrange(i as int, members@.len() as int), key@),
                decreases members@.len() - i,
            {
                let entry = &members[i];
                assert(members@.subrange(i as int, members@.len() as int)[0] == members@[i as int]);
                if str_eq(entry.0.as_str(), key) {
                    assert(member(members@.subrange(i as int, members@.len() as int), key@) == Some(
                        members@[i as int].1,
                    ));
                    return Some(&entry.1);
                }
                assert(members@.subrange(i as int, members@.len() as int).drop_first() =~= members@.subrange(
                    i + 1,
                    members@.len() as int,
                ));
                i = i + 1;
            }
            None
        },
        _ => None,
    }
}

/// `v[i]`.
pub fn get_element<'a>(v: Option<&'a Json>, i: usize) -> (r: Option<&'a Json>)
    ensures
        deref_json(r) == element(deref_json(v), i as int),
{
    match v {
        Some(Json::Array(items)) => {
            if i < items.len() {
                Some(&items[i])
            } else {
                None
            }
        },
        _ => None,
    }
}

/// `v.as_u64()`.
pub fn as_u64(v: Option<&Json>) -> (r: Option<u64>)
    ensures
        r == json_u64(deref_json(v)),
{
    match v {
        Some(Json::Number(JsonNumber::PosInt(n))) => Some(*n),
        _ => None,
    }
}

/// `v.as_i64()`.
pub fn as_i64(v: Option<&Json>) -> (r: Option<i64>)
    ensures
        r == json_i64(deref_json(v)),
{
    match v {
        Some(Json::Number(JsonNumber::PosInt(n))) => {
            if *n <= i64::MAX as u64 {
                Some(*n as i64)
            } else {
                None
            }
        },
        Some(Json::Number(JsonNumber::NegInt(n))) => Some(*n),
        _ => None,
    }
}

/// `v.as_str().map(String::from)`.
pub fn as_string(v: Option<&Json>) -> (r: Option<String>)
    ensures
        match r {
            Some(s) => json_str(deref_json(v)) == Some(s@),
            None => json_str(deref_json(v)) is None,
        },
{
    match v {
        Some(Json::String(s)) => Some(s.clone()),
        _ => None,
    }
}

/// `v.as_array()`.
pub fn as_array<'a>(v: Option<&'a Json>) -> (r: Option<&'a Vec<Json>>)
    ensures
        match r {
            Some(items) => json_array(deref_json(v)) == Some(items@),
            None => json_array(deref_json(v)) is None,
        },
{
    match v {
        Some(Json::Array(items)) => Some(items),
        _ => None,
    }
}

/// `v.is_null()`.
pub fn is_null(v: Option<&Json>) -> (r: bool)
    ensures
        r == json_is_null(deref_json(v)),
{
    match v {
        None => true,
        Some(Json::Null) => true,
        _ => false,
    }
}

/// `v.as_u64().unwrap_or(0)`.
pub fn u64_or_default(v: Option<&Json>) -> (r: u64)
    ensures
        r == u64_or_zero(deref_json(v)),
{
    match as_u64(v) {
        Some(n) => n,
        None => 0,
    }
}

/// `v.as_str().unwrap_or("").to_owned()`.
pub fn string_or_default(v: Option<&Json>) -> (r: String)
    ensures
        r@ == str_or_empty(deref_json(v)),
{
    match as_string(v) {
        Some(s) => s,
        None => String::new(),
    }
}

} // verus!
