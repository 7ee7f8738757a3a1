//! Payload decoding. Payloads are JSON documents; `serde_json` does the
//! parsing, behind a small trusted surface. A parsed document is modelled as
//! a map from top-level field names to an abstraction of each field's value:
//! the text of a string field, and for a number field its integer readings
//! (when the number is an integer in range) together with its decimal text.
//! The strict, field-by-field decoding of the two payload shapes is verified
//! code in `ingest`, built on this surface.

use vstd::prelude::*;

verus! {

/// The abstraction of one number field of a document: `as_i64` / `as_u64`
/// are its integer readings when it is an integer in the respective range,
/// and `text` is its decimal text.
pub ghost struct JsonNum {
    pub as_i64: Option<int>,
    pub as_u64: Option<int>,
    pub text: Seq<char>,
}

/// The abstraction of one top-level field of a document.
pub ghost enum JsonField {
    Str(Seq<char>),
    Num(JsonNum),
    Other,
}

#[verifier::external_type_specification]
#[verifier::external_body]
pub struct ExValue(serde_json::Value);

/// The top-level fields of a parsed document: empty when the document is not
/// an object.
pub uninterp spec fn json_fields(v: serde_json::Value) -> Map<Seq<char>, JsonField>;

/// What parsing the bytes as JSON yields: `None` when they are not a valid
/// document, otherwise the document's top-level fields.
pub uninterp spec fn json_doc(payload: Seq<u8>) -> Option<Map<Seq<char>, JsonField>>;

/// The string under `key`, when the document holds a string field there.
pub open spec fn field_str(m: Map<Seq<char>, JsonField>, key: Seq<char>) -> Option<Seq<char>> {
    if m.dom().contains(key) && m[key] is Str {
        Some(m[key]->Str_0)
    } else {
        None
    }
}

/// The `i64` reading of the number under `key`, when the document holds a
/// number field there that is an integer in `i64` range.
pub open spec fn field_i64(m: Map<Seq<char>, JsonField>, key: Seq<char>) -> Option<int> {
    if m.dom().contains(key) && m[key] is Num {
        m[key]->Num_0.as_i64
    } else {
        None
    }
}

/// The `u64` reading of the number under `key`, when the document holds a
/// number field there that is an integer in `u64` range.
pub open spec fn field_u64(m: Map<Seq<char>, JsonField>, key: Seq<char>) -> Option<int> {
    if m.dom().contains(key) && m[key] is Num {
        m[key]->Num_0.as_u64
    } else {
        None
    }
}

/// The decimal text of the number under `key`, when the document holds a
/// number field there.
pub open spec fn field_num_text(m: Map<Seq<char>, JsonField>, key: Seq<char>) -> Option<
    Seq<char>,
> {
    if m.dom().contains(key) && m[key] is Num {
        Some(m[key]->Num_0.text)
    } else {
        None
    }
}

/// Relies on `serde_json::from_slice::<Value>`: parses the bytes as one JSON
/// document, returning an error on malformed input.
#[verifier::external_body]
pub(crate) fn json_parse(payload: &[u8]) -> (r: Option<serde_json::Value>)
    ensures
        match r {
            Some(v) => json_doc(payload@) matches Some(d) && json_fields(v) == d,
            None => json_doc(payload@) is None,
        },
{
    serde_json::from_slice(payload).ok()
}

/// Relies on `serde_json::Value::get` and `Value::as_str`: the string under
/// `key`, when the document is an object holding a string there.
#[verifier::external_body]
pub(crate) fn json_get_str(v: &serde_json::Value, key: &str) -> (r: Option<String>)
    ensures
        match r {
            Some(s) => field_str(json_fields(*v), key@) == Some(s@),
            None => field_str(json_fields(*v), key@) is None,
        },
{
    match v.get(key) {
        Some(x) => x.as_str().map(str::to_owned),
        None => None,
    }
}

/// Relies on `serde_json::Value::get` and `Value::as_i64`: the number under
/// `key` as an `i64`, when the document holds there an integer representable
/// as `i64`.
#[verifier::external_body]
pub(crate) fn json_get_i64(v: &serde_json::Value, key: &str) -> (r: Option<i64>)
    ensures
        match r {
            Some(x) => field_i64(json_fields(*v), key@) == Some(x as int),
            None => field_i64(json_fields(*v), key@) is None,
        },
{
    match v.get(key) {
        Some(x) => x.as_i64(),
        None => None,
    }
}

/// Relies on `serde_json::Value::get` and `Value::as_u64`: the number under
/// `key` as a `u64`, when the document holds there an integer representable
/// as `u64`.
#[verifier::external_body]
pub(crate) fn json_get_u64(v: &serde_json::Value, key: &str) -> (r: Option<u64>)
    ensures
        match r {
            Some(x) => field_u64(json_fields(*v), key@) == Some(x as int),
            None => field_u64(json_fields(*v), key@) is None,
        },
{
    match v.get(key) {
        Some(x) => x.as_u64(),
        None => None,
    }
}

/// Relies on `serde_json::Value::get` and the `Display` of
/// `serde_json::Number`: the decimal text of the number under `key`, when
/// the document holds a number there.
#[verifier::external_body]
pub(crate) fn json_get_num_text(v: &serde_json::Value, key: &str) -> (r: Option<String>)
    ensures
        match r {
            Some(s) => field_num_text(json_fields(*v), key@) == Some(s@),
            None => field_num_text(json_fields(*v), key@) is None,
        },
{
    match v.get(key) {
        Some(serde_json::Value::Number(n)) => Some(n.to_string()),
        _ => None,
    }
}

} // verus!
