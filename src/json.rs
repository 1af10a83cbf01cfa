//! A JSON document as plain data, and typed reads of an object's fields.
use vstd::prelude::*;

verus! {

/// A JSON value. An object read from a document holds each key once; where
/// a key repeats, the first entry counts.
#[derive(Debug)]
pub enum JsonValue {
    Null,
    Bool(bool),
    /// A number: `unsigned` holds it where it is a non-negative integer
    /// that fits in 64 bits; `text` is its shortest decimal form.
    Number { unsigned: Option<u64>, text: String },
    Str(String),
    Array(Vec<JsonValue>),
    Object(Vec<(String, JsonValue)>),
}

#[verifier::external_type_specification]
#[verifier::external_body]
pub struct ExSerdeValue(serde_json::Value);

/// The document that a body of bytes holds, where it is well-formed JSON.
pub uninterp spec fn json_of(body: Seq<u8>) -> Option<JsonValue>;

/// Relies on serde_json::from_slice to parse a JSON document; the result is
/// a function of the bytes alone.
#[verifier::external_body]
pub(crate) fn parse_json(body: &[u8]) -> (r: Option<JsonValue>)
    ensures
        r == json_of(body@),
{
    serde_json::from_slice::<serde_json::Value>(body).ok().map(from_serde)
}

/// Relies on serde_json::Number::as_u64 and its `Display` to carry a parsed
/// value over into `JsonValue`, variant for variant.
#[verifier::external_body]
fn from_serde(v: serde_json::Value) -> JsonValue {
    match v {
        serde_json::Value::Null => JsonValue::Null,
        serde_json::Value::Bool(b) => JsonValue::Bool(b),
        serde_json::Value::Number(n) => JsonValue::Number { unsigned: n.as_u64(), text: n.to_string() },
        serde_json::Value::String(s) => JsonValue::Str(s),
        serde_json::Value::Array(a) => JsonValue::Array(a.into_iter().map(from_serde).collect()),
        serde_json::Value::Object(m) => JsonValue::Object(m.into_iter().map(|(k, x)| (k, from_serde(x))).collect()),
    }
}

/// The value under `key` among `fields[i..]`, the first where a key repeats.
pub open spec fn find_from(fields: Seq<(String, JsonValue)>, key: Seq<char>, i: int) -> Option<JsonValue>
    decreases fields.len() - i,
{
    if i < 0 || i >= fields.len() {
        None
    } else if fields[i].0@ == key {
        Some(fields[i].1)
    } else {
        find_from(fields, key, i + 1)
    }
}

/// The value of field `key` of `v`, where `v` is an object that has it.
pub open spec fn field(v: JsonValue, key: Seq<char>) -> Option<JsonValue> {
    match v {
        JsonValue::Object(fields) => find_from(fields@, key, 0),
        _ => None,
    }
}

/// A field that holds a string.
pub open spec fn str_field(v: JsonValue, key: Seq<char>) -> Option<Seq<char>> {
    match field(v, key) {
        Some(JsonValue::Str(s)) => Some(s@),
        _ => None,
    }
}

/// A field that holds a boolean.
pub open spec fn bool_field(v: JsonValue, key: Seq<char>) -> Option<bool> {
    match field(v, key) {
        Some(JsonValue::Bool(b)) => Some(b),
        _ => None,
    }
}

/// A field that holds a non-negative integer that fits in 32 bits.
pub open spec fn u32_field(v: JsonValue, key: Seq<char>) -> Option<u32> {
    match field(v, key) {
        Some(JsonValue::Number { unsigned: Some(n), .. }) => if n <= u32::MAX {
            Some(n as u32)
        } else {
            None
        },
        _ => None,
    }
}

/// An optional string field: absent or null reads as `None`; a string as
/// `Some`; anything else does not fit (the outer `None`).
pub open spec fn opt_str_field(v: JsonValue, key: Seq<char>) -> Option<Option<Seq<char>>> {
    match field(v, key) {
        None => Some(None),
        Some(JsonValue::Null) => Some(None),
        Some(JsonValue::Str(s)) => Some(Some(s@)),
        _ => None,
    }
}

/// An optional number field, read as its decimal text: absent or null reads
/// as `None`; a number as `Some`; anything else does not fit.
pub open spec fn opt_number_field(v: JsonValue, key: Seq<char>) -> Option<Option<Seq<char>>> {
    match field(v, key) {
        None => Some(None),
        Some(JsonValue::Null) => Some(None),
        Some(JsonValue::Number { text, .. }) => Some(Some(text@)),
        _ => None,
    }
}

/// The view of an optional string.
pub open spec fn opt_view(s: Option<String>) -> Option<Seq<char>> {
    match s {
        Some(x) => Some(x@),
        None => None,
    }
}

/// The value of field `key` of `v`.
pub fn get_field<'a>(v: &'a JsonValue, key: &str) -> (r: Option<&'a JsonValue>)
    ensures
        match r {
            Some(x) => field(*v, key@) == Some(*x),
            None => field(*v, key@) is None,
        },
{
    match v {
        JsonValue::Object(fields) => {
            assert(field(*v, key@) == find_from(fields@, key@, 0));
            let k = String::from_str(key);
            let mut i: usize = 0;
            while i < fields.len()
                invariant
                    i <= fields@.len(),
                    k@ == key@,
                    field(*v, key@) == find_from(fields@, key@, 0),
                    find_from(fields@, key@, 0) == find_from(fields@, key@, i as int),
                decreases fields.len() - i,
            {
                if fields[i].0 == k {
                    assert(find_from(fields@, key@, i as int) == Some(fields@[i as int].1));
                    return Some(&fields[i].1);
                }
                i = i + 1;
            }
            None
        },
        _ => None,
    }
}

/// Reads a string field.
pub fn get_str(v: &JsonValue, key: &str) -> (r: Option<String>)
    ensures
        opt_view(r) == str_field(*v, key@),
{
    match get_field(v, key) {
        Some(JsonValue::Str(s)) => Some(s.clone()),
        _ => None,
    }
}

/// Reads a boolean field.
pub fn get_bool(v: &JsonValue, key: &str) -> (r: Option<bool>)
    ensures
        r == bool_field(*v, key@),
{
    match get_field(v, key) {
        Some(JsonValue::Bool(b)) => Some(*b),
        _ => None,
    }
}

/// Reads a field that holds an integer in the range of `u32`.
pub fn get_u32(v: &JsonValue, key: &str) -> (r: Option<u32>)
    ensures
        r == u32_field(*v, key@),
{
    match get_field(v, key) {
        Some(JsonValue::Number { unsigned: Some(n), .. }) => if *n <= u32::MAX as u64 {
            Some(*n as u32)
        } else {
            None
        },
        _ => None,
    }
}

/// Reads an optional string field.
pub fn get_opt_str(v: &JsonValue, key: &str) -> (r: Option<Option<String>>)
    ensures
        match r {
            Some(x) => opt_str_field(*v, key@) == Some(opt_view(x)),
            None => opt_str_field(*v, key@) is None,
        },
{
    match get_field(v, key) {
        None => Some(None),
        Some(JsonValue::Null) => Some(None),
        Some(JsonValue::Str(s)) => Some(Some(s.clone())),
        _ => None,
    }
}

/// Reads an optional number field as its decimal text.
pub fn get_opt_number(v: &JsonValue, key: &str) -> (r: Option<Option<String>>)
    ensures
        match r {
            Some(x) => opt_number_field(*v, key@) == Some(opt_view(x)),
            None => opt_number_field(*v, key@) is None,
        },
{
    match get_field(v, key) {
        None => Some(None),
        Some(JsonValue::Null) => Some(None),
        Some(JsonValue::Number { text, .. }) => Some(Some(text.clone())),
        _ => None,
    }
}

} // verus!
