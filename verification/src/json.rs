use vstd::prelude::*;
use crate::value::JsonValue;

verus! {

/// `serde_json::Value`, declared so that the conversion below can take it;
/// the library never looks inside a value of it.
#[verifier::external_type_specification]
#[verifier::external_body]
pub struct ExValue(serde_json::Value);

/// The value tree that parsing `text` as JSON yields, as this library models
/// it, or `None` where the text is not well-formed JSON.  The tree is a
/// function of the text alone, so it only gets a name here; the decoding
/// rules applied to it are stated and proved over `spec_decode`.
pub uninterp spec fn spec_json_of(text: Seq<char>) -> Option<JsonValue>;

/// Relies on `serde_json::from_str::<serde_json::Value>`: it returns the JSON
/// value tree of `text`, or an error exactly where the text is not
/// well-formed JSON.  The result depends on the text alone: serde_json's
/// default map hands an object's pairs out in sorted key order, and a
/// repeated key keeps its last value.
#[verifier::external_body]
pub fn json_from_str(text: &str) -> (r: Option<JsonValue>)
    ensures
        r == spec_json_of(text@),
{
    serde_json::from_str::<serde_json::Value>(text).ok().map(value_tree)
}

/// Relies on `serde_json::Value` and `serde_json::Number::as_u64`: maps each
/// `Value` variant, one for one, onto the library's tree.  `as_u64` tells the
/// unsigned integers among the numbers apart from the rest; what carries no
/// decodable data (null, a boolean, a negative or fractional number) lands in
/// `Other`.  Only `json_from_str` uses this conversion.
#[verifier::external_body]
fn value_tree(v: serde_json::Value) -> JsonValue {
    match v {
        serde_json::Value::String(s) => JsonValue::Str(s),
        serde_json::Value::Number(n) => match n.as_u64() {
            Some(u) => JsonValue::UInt(u),
            None => JsonValue::Other,
        },
        serde_json::Value::Array(a) => JsonValue::Arr(a.into_iter().map(value_tree).collect()),
        serde_json::Value::Object(m) => JsonValue::Obj(
            m.into_iter().map(|p| (p.0, value_tree(p.1))).collect(),
        ),
        _ => JsonValue::Other,
    }
}

} // verus!
