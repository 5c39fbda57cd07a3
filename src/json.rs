//! The JSON handling that the conversation needs, done by `serde_json`.
use vstd::prelude::*;

verus! {

#[verifier::external_type_specification]
#[verifier::external_body]
pub struct ExJsonError(serde_json::Error);

/// What `serde_json` makes of `text` when asked for the string stored under
/// `key`: `None` when `text` is not JSON, `Some(None)` when it holds no string
/// there (not an object, no such key, or a value of another kind).
pub uninterp spec fn json_string_field(text: Seq<char>, key: Seq<char>) -> Option<Option<Seq<char>>>;

/// The JSON text of a string value holding `s` (quoted and escaped).
pub uninterp spec fn json_string_literal(s: Seq<char>) -> Seq<char>;

/// Relies on `serde_json::from_str::<Value>` to parse `text`, then on
/// `Value::get` and `Value::as_str` to read the string stored under `key`.
#[verifier::external_body]
pub(crate) fn string_field(text: &str, key: &str) -> (r: Result<Option<String>, serde_json::Error>)
    ensures
        match r {
            Ok(f) => json_string_field(text@, key@) == Some(f.deep_view()),
            Err(_) => json_string_field(text@, key@) is None,
        },
{
    match serde_json::from_str::<serde_json::Value>(text) {
        Ok(v) => Ok(v.get(key).and_then(serde_json::Value::as_str).map(String::from)),
        Err(e) => Err(e),
    }
}

/// Relies on the `Display` of `serde_json::Value::String`, which writes the
/// value as a JSON string literal.
#[verifier::external_body]
pub(crate) fn string_literal(s: &str) -> (r: String)
    ensures
        r@ == json_string_literal(s@),
{
    serde_json::Value::String(s.to_string()).to_string()
}

} // verus!
