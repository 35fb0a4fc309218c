//! The trusted boundary to the outside JSON parser.
//!
//! Everything downstream of this module works on `JsonValue` and is
//! verified. Here, and only here, the crate calls into `serde_json` to turn
//! raw body text into that model. The contract of `parse_json_text` names
//! its result rather than describing it: `parsed_json` stands for "what the
//! JSON parser makes of this text", and all that is assumed of it is that
//! it depends on the text alone.

use crate::json::JsonValue;
use vstd::prelude::*;

verus! {

#[verifier::external_type_specification]
#[verifier::external_body]
pub struct ExSerdeValue(serde_json::Value);

/// What the JSON parser makes of a body text: the parsed document, or the
/// parser's error message. A pure function of the text.
pub uninterp spec fn parsed_json(s: Seq<char>) -> Result<JsonValue, String>;

/// Relies on `serde_json::from_str::<serde_json::Value>`: parsing is
/// deterministic, so the result is a function of the text alone.
#[verifier::external_body]
pub(crate) fn parse_json_text(text: &str) -> (r: Result<JsonValue, String>)
    ensures
        r == parsed_json(text@),
{
    match serde_json::from_str::<serde_json::Value>(text) {
        Ok(v) => Ok(convert_value(v)),
        Err(e) => Err(e.to_string()),
    }
}

/// Relies on `serde_json::Value` and `serde_json::Number` (`as_u64`,
/// `as_i64`): carries each node of the parsed document over into the
/// crate's own model, arm by arm.
#[verifier::external_body]
fn convert_value(v: serde_json::Value) -> JsonValue {
    match v {
        serde_json::Value::Null => JsonValue::Null,
        serde_json::Value::Bool(b) => JsonValue::Bool(b),
        serde_json::Value::Number(n) => match (n.as_u64(), n.as_i64()) {
            (Some(u), _) => JsonValue::UInt(u),
            (None, Some(i)) => JsonValue::Int(i),
            (None, None) => JsonValue::Frac,
        },
        serde_json::Value::String(s) => JsonValue::Text(s),
        serde_json::Value::Array(a) => JsonValue::Arr(a.into_iter().map(convert_value).collect()),
        serde_json::Value::Object(m) => JsonValue::Obj(
            m.into_iter().map(|(k, x)| (k, convert_value(x))).collect(),
        ),
    }
}

} // verus!
