//! JSON documents as plain values, and the reading of single values out of
//! them.

use vstd::prelude::*;
use crate::text::same_text;

verus! {

/// A JSON number: an integer that sixty-four bits hold, or any other.
#[derive(Debug, Clone, PartialEq, Eq)]
pub enum JsonNumber {
    /// A whole number from zero to `u64::MAX`.
    Unsigned(u64),
    /// A whole number below zero, down to `i64::MIN`.
    Negative(i64),
    /// A number with a fraction or an exponent, or beyond those ranges.
    Fraction,
}

/// A JSON document. An object keeps its members in a list; a document read
/// from text names no member twice.
#[derive(Debug, PartialEq, Eq)]
pub enum Json {
    Null,
    Bool(bool),
    Number(JsonNumber),
    Text(String),
    Array(Vec<Json>),
    Object(Vec<(String, Json)>),
}

/// `serde_json::Value`, carried from the reading of a text to its move
/// into plain values.
#[verifier::external_type_specification]
#[verifier::external_body]
pub struct ExValue(serde_json::Value);

/// `serde_json::Error`, of which only its presence is used.
#[verifier::external_type_specification]
#[verifier::external_body]
pub struct ExJsonError(serde_json::Error);

/// The document that a text states, where it states one.
pub uninterp spec fn json_document(text: Seq<char>) -> Option<Json>;

/// What a `serde_json::Value` holds, as plain values.
pub uninterp spec fn value_content(value: serde_json::Value) -> Json;

/// `serde_json::from_str` at the type `Value`: whether a text is a JSON
/// document, and which, depends on the text alone.
#[verifier::external_body]
fn read_value(text: &str) -> (r: Result<serde_json::Value, serde_json::Error>)
    ensures
        match r {
            Ok(value) => json_document(text@) == Some(value_content(value)),
            Err(_) => json_document(text@) is None,
        },
{
    serde_json::from_str::<serde_json::Value>(text)
}

/// Moves a `serde_json::Value` into plain values, variant by variant: an
/// object's members in the order in which its map yields them, a number
/// by what `Number::as_u64` and `Number::as_i64` give.
#[verifier::external_body]
fn plain_json(value: serde_json::Value) -> (json: Json)
    ensures
        json == value_content(value),
{
    match value {
        serde_json::Value::Null => Json::Null,
        serde_json::Value::Bool(b) => Json::Bool(b),
        serde_json::Value::Number(n) => Json::Number(match (n.as_u64(), n.as_i64()) {
            (Some(u), _) => JsonNumber::Unsigned(u),
            (None, Some(i)) => JsonNumber::Negative(i),
            (None, None) => JsonNumber::Fraction,
        }),
        serde_json::Value::String(s) => Json::Text(s),
        serde_json::Value::Array(a) => Json::Array(a.into_iter().map(plain_json).collect()),
        serde_json::Value::Object(o) => Json::Object(
            o.into_iter().map(|(k, v)| (k, plain_json(v))).collect(),
        ),
    }
}

/// Reads a text as a JSON document; `None` where it is none.
pub fn parse_json(text: &str) -> (r: Option<Json>)
    ensures
        r == json_document(text@),
{
    match read_value(text) {
        Ok(value) => Some(plain_json(value)),
        Err(_) => None,
    }
}

/// The value of the first member called `key`.
pub open spec fn lookup(entries: Seq<(String, Json)>, key: Seq<char>) -> Option<Json>
    decreases entries.len(),
{
    if entries.len() == 0 {
        None
    } else if entries[0].0@ == key {
        Some(entries[0].1)
    } else {
        lookup(entries.subrange(1, entries.len() as int), key)
    }
}

/// Finds the value of the first member called `key`.
pub fn find_member<'a>(entries: &'a Vec<(String, Json)>, key: &str) -> (r: Option<&'a Json>)
    ensures
        match r {
            Some(value) => lookup(entries@, key@) == Some(*value),
            None => lookup(entries@, key@) is None,
        },
{
    let mut i: usize = 0;
    assert(entries@.subrange(0, entries@.len() as int) =~= entries@);
    while i < entries.len()
        invariant
            i <= entries@.len(),
            lookup(entries@, key@) == lookup(
                entries@.subrange(i as int, entries@.len() as int),
                key@,
            ),
        decreases entries@.len() - i,
    {
        let ghost rest = entries@.subrange(i as int, entries@.len() as int);
        if same_text(entries[i].0.as_str(), key) {
            return Some(&entries[i].1);
        }
        assert(rest.subrange(1, rest.len() as int) =~= entries@.subrange(
            i + 1,
            entries@.len() as int,
        ));
        i = i + 1;
    }
    None
}

/// What a value holds for one field of a record.
pub enum Member {
    /// The value is no record of that shape.
    NotRecord,
    /// The record does not have the field.
    Absent,
    Present(Json),
}

/// The field of a record called `key`, declared at `position` among
/// `count` fields. A record is written as an object, its fields by name
/// and others ignored, or as an array of exactly `count` values, its
/// fields by position.
pub open spec fn member(json: Json, key: Seq<char>, position: int, count: int) -> Member {
    match json {
        Json::Object(entries) => match lookup(entries@, key) {
            Some(value) => Member::Present(value),
            None => Member::Absent,
        },
        Json::Array(items) => if items@.len() == count && 0 <= position < count {
            Member::Present(items@[position])
        } else {
            Member::NotRecord
        },
        _ => Member::NotRecord,
    }
}

/// A field as `member` finds it, by reference.
pub enum MemberRef<'a> {
    NotRecord,
    Absent,
    Present(&'a Json),
}

impl<'a> MemberRef<'a> {
    /// The field, by value.
    pub open spec fn view(self) -> Member {
        match self {
            MemberRef::NotRecord => Member::NotRecord,
            MemberRef::Absent => Member::Absent,
            MemberRef::Present(value) => Member::Present(*value),
        }
    }
}

/// Finds a field of a record.
pub fn member_of<'a>(json: &'a Json, key: &str, position: usize, count: usize) -> (r: MemberRef<
    'a,
>)
    ensures
        r@ == member(*json, key@, position as int, count as int),
{
    match json {
        Json::Object(entries) => match find_member(entries, key) {
            Some(value) => MemberRef::Present(value),
            None => MemberRef::Absent,
        },
        Json::Array(items) => if items.len() == count && position < count {
            MemberRef::Present(&items[position])
        } else {
            MemberRef::NotRecord
        },
        _ => MemberRef::NotRecord,
    }
}

/// The value read as an integer within `low..=high`.
pub open spec fn integer_of(json: Json, low: int, high: int) -> Option<int> {
    match json {
        Json::Number(JsonNumber::Unsigned(u)) => if low <= u <= high {
            Some(u as int)
        } else {
            None
        },
        Json::Number(JsonNumber::Negative(i)) => if low <= i <= high {
            Some(i as int)
        } else {
            None
        },
        _ => None,
    }
}

/// Reads a value as a `u64`.
pub fn read_u64(json: &Json) -> (r: Option<u64>)
    ensures
        match r {
            Some(v) => integer_of(*json, 0, u64::MAX as int) == Some(v as int),
            None => integer_of(*json, 0, u64::MAX as int) is None,
        },
{
    match json {
        Json::Number(JsonNumber::Unsigned(u)) => Some(*u),
        Json::Number(JsonNumber::Negative(i)) => if *i >= 0 {
            Some(*i as u64)
        } else {
            None
        },
        _ => None,
    }
}

/// Reads a value as an `i64`.
pub fn read_i64(json: &Json) -> (r: Option<i64>)
    ensures
        match r {
            Some(v) => integer_of(*json, i64::MIN as int, i64::MAX as int) == Some(v as int),
            None => integer_of(*json, i64::MIN as int, i64::MAX as int) is None,
        },
{
    match json {
        Json::Number(JsonNumber::Unsigned(u)) => if *u <= i64::MAX as u64 {
            Some(*u as i64)
        } else {
            None
        },
        Json::Number(JsonNumber::Negative(i)) => Some(*i),
        _ => None,
    }
}

/// Reads a value as an `i32`.
pub fn read_i32(json: &Json) -> (r: Option<i32>)
    ensures
        match r {
            Some(v) => integer_of(*json, i32::MIN as int, i32::MAX as int) == Some(v as int),
            None => integer_of(*json, i32::MIN as int, i32::MAX as int) is None,
        },
{
    match read_i64(json) {
        Some(v) => if i32::MIN as i64 <= v && v <= i32::MAX as i64 {
            Some(v as i32)
        } else {
            None
        },
        None => None,
    }
}

/// Reads a value as a `u16`.
pub fn read_u16(json: &Json) -> (r: Option<u16>)
    ensures
        match r {
            Some(v) => integer_of(*json, 0, u16::MAX as int) == Some(v as int),
            None => integer_of(*json, 0, u16::MAX as int) is None,
        },
{
    match read_u64(json) {
        Some(v) => if v <= u16::MAX as u64 {
            Some(v as u16)
        } else {
            None
        },
        None => None,
    }
}

/// The value read as a text.
pub open spec fn text_in(json: Json) -> Option<String> {
    match json {
        Json::Text(s) => Some(s),
        _ => None,
    }
}

/// Reads a value as a text.
pub fn read_text(json: &Json) -> (r: Option<String>)
    ensures
        r == text_in(*json),
{
    match json {
        Json::Text(s) => Some(s.clone()),
        _ => None,
    }
}

/// The value read as a truth value.
pub open spec fn bool_in(json: Json) -> Option<bool> {
    match json {
        Json::Bool(b) => Some(b),
        _ => None,
    }
}

/// Reads a value as a truth value.
pub fn read_bool(json: &Json) -> (r: Option<bool>)
    ensures
        r == bool_in(*json),
{
    match json {
        Json::Bool(b) => Some(*b),
        _ => None,
    }
}

} // verus!
