//! The MessagePack encoding of actions, by `rmp_serde`, as the action hash
//! is taken over it.
use vstd::prelude::*;
use serde_json::Value;
use crate::json::{Json, JsonNumber, JsonValue};

verus! {

#[verifier::external_type_specification]
#[verifier::external_body]
pub struct ExValue(serde_json::Value);

/// The bytes that `rmp_serde::to_vec_named` writes for the `serde_json::Value`
/// of a JSON document, where it succeeds.
pub uninterp spec fn msgpack_named(action: JsonValue) -> Seq<u8>;

/// The `serde_json::Value` of a document, variant for variant.
#[verifier::external_body]
fn json_to_value(j: &Json) -> Value {
    match j {
        Json::Null => Value::Null,
        Json::Bool(b) => Value::Bool(*b),
        Json::Number(JsonNumber::PosInt(u)) => Value::from(*u),
        Json::Number(JsonNumber::NegInt(i)) => Value::from(*i),
        Json::Number(JsonNumber::Float(t)) => serde_json::from_str(t).unwrap_or(Value::Null),
        Json::Str(s) => Value::String(s.clone()),
        Json::Array(a) => Value::Array(a.iter().map(json_to_value).collect()),
        Json::Object(f) => Value::Object(f.iter().map(|(k, v)| (k.clone(), json_to_value(v))).collect()),
    }
}

/// `rmp_serde::to_vec_named` on the document's `serde_json::Value`. The
/// contract claims that it succeeds with the named encoding of the
/// document: the encoder's only failure on a `Value` is a writer that
/// cannot reserve memory, and running out of memory is left aside.
#[verifier::external_body]
pub(crate) fn msgpack_encode(action: &Json) -> (r: Option<Vec<u8>>)
    ensures
        r is Some,
        r matches Some(b) ==> b@ == msgpack_named(action@),
{
    rmp_serde::to_vec_named(&json_to_value(action)).ok()
}

} // verus!
