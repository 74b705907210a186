//! The library's model of JSON values, and the trusted boundary to
//! `serde_json`, which parses and serializes the wire format.
//!
//! A `JsonValue` holds as plain data everything the proxy's rules read
//! (strings, unsigned integers, arrays, objects); numbers that the rules
//! never read (negative or fractional) are carried through opaquely so
//! that a value survives the round trip to the upstream unchanged.

use serde_json::Value;
use vstd::prelude::*;

verus! {

/// An opaque handle to `serde_json::Value`, so that raw upstream values can
/// stand in signatures.
#[verifier::external_type_specification]
#[verifier::external_body]
pub struct ExSerdeValue(serde_json::Value);

/// An opaque handle to `serde_json::Number`, carried through unread.
#[verifier::external_type_specification]
#[verifier::external_body]
pub struct ExSerdeNumber(serde_json::Number);

/// A JSON value as the proxy models it.
pub enum JsonValue {
    Null,
    Bool(bool),
    /// A number representable as an unsigned 64-bit integer.
    Unsigned(u64),
    /// An integer below zero.
    Signed(i64),
    /// Any other number (fractional, or out of integer range), kept opaque.
    OtherNumber(serde_json::Number),
    Text(String),
    Array(Vec<JsonValue>),
    Object(Vec<(String, JsonValue)>),
}

/// First-match lookup of a key among an object's fields.
pub open spec fn lookup_fields(fields: Seq<(String, JsonValue)>, key: Seq<char>) -> Option<
    JsonValue,
>
    decreases fields.len(),
{
    if fields.len() == 0 {
        None
    } else if fields[0].0@ == key {
        Some(fields[0].1)
    } else {
        lookup_fields(fields.subrange(1, fields.len() as int), key)
    }
}

/// Lookup of a key in a JSON value: a field of an object, absent anywhere else.
pub open spec fn spec_lookup(v: JsonValue, key: Seq<char>) -> Option<JsonValue> {
    match v {
        JsonValue::Object(fields) => lookup_fields(fields@, key),
        _ => None,
    }
}

/// A first match at index `i` settles the lookup.
pub proof fn lemma_lookup_at_index(fields: Seq<(String, JsonValue)>, key: Seq<char>, i: int)
    requires
        0 <= i < fields.len(),
        fields[i].0@ == key,
        forall|j: int| 0 <= j < i ==> fields[j].0@ != key,
    ensures
        lookup_fields(fields, key) == Some(fields[i].1),
    decreases i,
{
    if i > 0 {
        let rest = fields.subrange(1, fields.len() as int);
        lemma_lookup_at_index(rest, key, i - 1);
        assert(rest[i - 1] == fields[i]);
    }
}

/// No match anywhere settles the lookup as absent.
pub proof fn lemma_lookup_none(fields: Seq<(String, JsonValue)>, key: Seq<char>)
    requires
        forall|j: int| 0 <= j < fields.len() ==> fields[j].0@ != key,
    ensures
        lookup_fields(fields, key) is None,
    decreases fields.len(),
{
    if fields.len() > 0 {
        lemma_lookup_none(fields.subrange(1, fields.len() as int), key);
    }
}

/// Relies on `str`'s `PartialEq`: two string slices are equal exactly when
/// their characters are equal.
#[verifier::external_body]
pub(crate) fn str_eq(a: &str, b: &str) -> (r: bool)
    ensures
        r == (a@ == b@),
{
    a == b
}

/// Finds a key's value among an object's fields, first match first.
pub fn lookup_field<'a>(fields: &'a Vec<(String, JsonValue)>, key: &str) -> (r: Option<
    &'a JsonValue,
>)
    ensures
        match r {
            Some(j) => lookup_fields(fields@, key@) == Some(*j),
            None => lookup_fields(fields@, key@) is None,
        },
{
    let mut i: usize = 0;
    while i < fields.len()
        invariant
            0 <= i <= fields@.len(),
            forall|j: int| 0 <= j < i ==> fields@[j].0@ != key@,
        decreases fields@.len() - i,
    {
        if str_eq(fields[i].0.as_str(), key) {
            proof {
                lemma_lookup_at_index(fields@, key@, i as int);
            }
            return Some(&fields[i].1);
        }
        i += 1;
    }
    proof {
        lemma_lookup_none(fields@, key@);
    }
    None
}

/// The serialization of a JSON value, named but not stated: what
/// `serde_json`'s serializer prints for it.
pub uninterp spec fn serialized(v: JsonValue) -> Seq<char>;

/// Relies on `serde_json::Value`: its six variants are told apart one arm
/// each; `Number::as_u64` / `as_i64` tell integers from other numbers.
#[verifier::external_body]
pub(crate) fn json_of_serde(v: &Value) -> JsonValue {
    match v {
        Value::Null => JsonValue::Null,
        Value::Bool(b) => JsonValue::Bool(*b),
        Value::Number(n) => match (n.as_u64(), n.as_i64()) {
            (Some(u), _) => JsonValue::Unsigned(u),
            (None, Some(i)) => JsonValue::Signed(i),
            (None, None) => JsonValue::OtherNumber(n.clone()),
        },
        Value::String(s) => JsonValue::Text(s.clone()),
        Value::Array(a) => JsonValue::Array(a.iter().map(json_of_serde).collect()),
        Value::Object(o) => JsonValue::Object(
            o.iter().map(|(k, x)| (k.clone(), json_of_serde(x))).collect(),
        ),
    }
}

/// Relies on `serde_json::Value` construction: the model is turned back into
/// the wire value one variant at a time.
#[verifier::external_body]
pub(crate) fn serde_of_json(v: &JsonValue) -> Value {
    match v {
        JsonValue::Null => Value::Null,
        JsonValue::Bool(b) => Value::Bool(*b),
        JsonValue::Unsigned(u) => Value::from(*u),
        JsonValue::Signed(i) => Value::from(*i),
        JsonValue::OtherNumber(n) => Value::Number(n.clone()),
        JsonValue::Text(s) => Value::String(s.clone()),
        JsonValue::Array(a) => Value::Array(a.iter().map(serde_of_json).collect()),
        JsonValue::Object(o) => Value::Object(
            o.iter().map(|(k, x)| (k.clone(), serde_of_json(x))).collect(),
        ),
    }
}

/// Relies on `serde_json`'s serializer: the printed text is a function of
/// the value alone.
#[verifier::external_body]
pub(crate) fn json_to_string(v: &JsonValue) -> (r: String)
    ensures
        r@ == serialized(*v),
{
    serde_of_json(v).to_string()
}

/// Turns the model values of a parameter list back into wire values for the
/// upstream call.
pub fn wire_params(params: &Vec<JsonValue>) -> (r: Vec<serde_json::Value>)
    ensures
        r@.len() == params@.len(),
{
    let mut out: Vec<serde_json::Value> = Vec::new();
    let mut i: usize = 0;
    while i < params.len()
        invariant
            out@.len() == i,
            0 <= i <= params@.len(),
        decreases params@.len() - i,
    {
        out.push(serde_of_json(&params[i]));
        i += 1;
    }
    out
}

} // verus!
