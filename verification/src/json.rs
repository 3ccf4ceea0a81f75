//! The JSON tree as the library reads it.
//!
//! Frames carry JSON text that an outside parser turns into a tree; the
//! command grammar then walks that tree. The library holds the tree in
//! its own type, `JsonValue`, so that everything after the parse is
//! verified. Only the parse itself is trusted.

use vstd::prelude::*;

verus! {

use crate::text::str_eq;

/// A parsed JSON document.
///
/// Numbers are kept only as precisely as the protocol reads them: a
/// number representable as `u64` is `UInt`, a negative integer is
/// `NegInt`, and any other number (fractional or out of range) is
/// `NonIntNum`, whose exact value no command shape ever reads.
#[derive(Debug, PartialEq)]
pub enum JsonValue {
    Null,
    Bool(bool),
    UInt(u64),
    NegInt(i64),
    NonIntNum,
    Str(String),
    Array(Vec<JsonValue>),
    Object(Vec<(String, JsonValue)>),
}

/// What the outside JSON parser returns on the given bytes: `None` on
/// malformed text, otherwise the parsed tree. The result is a function
/// of the bytes alone.
pub uninterp spec fn spec_json_parse(bytes: Seq<u8>) -> Option<JsonValue>;

/// Relies on `serde_json::from_slice::<serde_json::Value>`: parses a
/// complete JSON document from bytes, deterministically in the bytes
/// alone, and fails exactly on malformed input. The tree is carried
/// over into the library's model by `model_of_value`.
#[verifier::external_body]
pub fn json_parse(bytes: &[u8]) -> (r: Option<JsonValue>)
    ensures
        r == spec_json_parse(bytes@),
{
    match serde_json::from_slice::<serde_json::Value>(bytes) {
        Ok(v) => Some(model_of_value(&v)),
        Err(_) => None,
    }
}

#[verifier::external_type_specification]
#[verifier::external_body]
pub struct ExJsonValue(serde_json::Value);

/// Relies on `serde_json::Value` and `serde_json::Number::as_u64` /
/// `as_i64`: carries the parsed tree into the library's model, one
/// variant to one variant; `as_u64` succeeds exactly on numbers held
/// as non-negative integers, and `as_i64` on the remaining negative
/// integers. Only `json_parse` calls this.
#[verifier::external_body]
fn model_of_value(v: &serde_json::Value) -> JsonValue {
    match v {
        serde_json::Value::Null => JsonValue::Null,
        serde_json::Value::Bool(b) => JsonValue::Bool(*b),
        serde_json::Value::Number(n) => match (n.as_u64(), n.as_i64()) {
            (Some(u), _) => JsonValue::UInt(u),
            (None, Some(i)) => JsonValue::NegInt(i),
            (None, None) => JsonValue::NonIntNum,
        },
        serde_json::Value::String(s) => JsonValue::Str(s.clone()),
        serde_json::Value::Array(a) => JsonValue::Array(a.iter().map(model_of_value).collect()),
        serde_json::Value::Object(o) => JsonValue::Object(
            o.iter().map(|(k, x)| (k.clone(), model_of_value(x))).collect(),
        ),
    }
}

/// The first binding of `key` among an object's fields.
pub open spec fn spec_obj_get(fields: Seq<(String, JsonValue)>, key: Seq<char>) -> Option<
    JsonValue,
>
    decreases fields.len(),
{
    if fields.len() == 0 {
        None
    } else if fields[0].0@ == key {
        Some(fields[0].1)
    } else {
        spec_obj_get(fields.drop_first(), key)
    }
}

/// Looks a key up among an object's fields, first binding wins.
pub fn obj_get<'a>(fields: &'a Vec<(String, JsonValue)>, key: &str) -> (r: Option<&'a JsonValue>)
    ensures
        match r {
            Some(v) => spec_obj_get(fields@, key@) == Some(*v),
            None => spec_obj_get(fields@, key@) is None,
        },
{
    let n = fields.len();
    let mut i: usize = 0;
    assert(fields@.skip(0) =~= fields@);
    while i < n
        invariant
            n == fields@.len(),
            i <= n,
            spec_obj_get(fields@, key@) == spec_obj_get(fields@.skip(i as int), key@),
        decreases n - i,
    {
        assert(fields@.skip(i as int)[0] == fields@[i as int]);
        if str_eq(fields[i].0.as_str(), key) {
            return Some(&fields[i].1);
        }
        assert(fields@.skip(i as int).drop_first() =~= fields@.skip(i + 1));
        i = i + 1;
    }
    None
}

} // verus!
