//! Trusted boundary to serde_json: tool arguments arrive as an opaque JSON
//! value, and these accessors extract the plain fields the verified logic
//! works on. Each accessor's result depends on its arguments alone, so it is
//! given a name that the verified callers' contracts are stated over;
//! nothing further is assumed about what a given value holds.

use vstd::prelude::*;

verus! {

#[verifier::external_type_specification]
#[verifier::external_body]
pub struct ExValue(serde_json::Value);

/// The string field that `Value::get` followed by `Value::as_str` find
/// under `key` in `v`, as its characters.
pub uninterp spec fn json_str_field(v: serde_json::Value, key: Seq<char>) -> Option<Seq<char>>;

/// The integer field that `Value::get` followed by `Value::as_i64` find
/// under `key` in `v`.
pub uninterp spec fn json_i64_field(v: serde_json::Value, key: Seq<char>) -> Option<i64>;

/// The value that `serde_json::from_str` parses out of the text, when the
/// text is valid JSON.
pub uninterp spec fn json_value_of(s: Seq<char>) -> Option<serde_json::Value>;

/// Relies on serde_json::Value::get and Value::as_str: the string under
/// `key` when `v` is an object with a string there, else None. The result
/// depends on the value and key alone.
#[verifier::external_body]
pub fn json_get_str(v: &serde_json::Value, key: &str) -> (r: Option<String>)
    ensures
        match r {
            None => json_str_field(*v, key@) is None,
            Some(s) => json_str_field(*v, key@) == Some(s@),
        },
{
    v.get(key).and_then(|x| x.as_str()).map(|s| s.to_string())
}

/// Relies on serde_json::Value::get and Value::as_i64: the integer under
/// `key` when `v` is an object with an integral number there, else None.
/// The result depends on the value and key alone.
#[verifier::external_body]
pub fn json_get_i64(v: &serde_json::Value, key: &str) -> (r: Option<i64>)
    ensures
        r == json_i64_field(*v, key@),
{
    v.get(key).and_then(|x| x.as_i64())
}

/// Relies on serde_json::from_str: the parsed value when `s` is valid JSON,
/// else None. The result depends on the text alone.
#[verifier::external_body]
pub fn json_from_text(s: &str) -> (r: Option<serde_json::Value>)
    ensures
        r == json_value_of(s@),
{
    serde_json::from_str(s).ok()
}

/// Relies on serde_json::Value::Null being a plain constructor.
#[verifier::external_body]
pub fn json_null() -> (r: serde_json::Value) {
    serde_json::Value::Null
}

} // verus!
