//! Trusted boundary to the JSON parser.
//!
//! The untrusted bytes are decoded by serde_json and the accepted document
//! is carried over, variant for variant, into the library's own tree
//! (`crate::doc::Json`); `json_doc` names that document as a function of
//! the bytes, so that everything decided about it afterwards is stated and
//! proved in verified code.

use vstd::prelude::*;

use crate::doc::{Json, JsonNumber};

verus! {

#[verifier::external_type_specification]
#[verifier::external_body]
pub struct ExValue(serde_json::Value);

#[verifier::external_type_specification]
#[verifier::external_body]
pub struct ExJsonError(serde_json::Error);

/// What `serde_json::from_slice::<serde_json::Value>` makes of the bytes,
/// carried into the library's document tree: `None` exactly when the bytes
/// are not accepted as one JSON document. A function of the bytes alone.
pub uninterp spec fn json_doc(bytes: Seq<u8>) -> Option<Json>;

/// Whether the bytes are accepted as one JSON document.
pub open spec fn json_parses(bytes: Seq<u8>) -> bool {
    json_doc(bytes) is Some
}

/// Relies on serde_json's Value enum and Number accessors: converts the
/// document one variant at a time, moving fields; a number carries its
/// decimal text (its Display) and its integer readings (Number::as_u64,
/// Number::as_i64), an object its members in the order serde_json keeps
/// them.
#[verifier::external_body]
fn to_doc(v: serde_json::Value) -> Json {
    match v {
        serde_json::Value::Null => Json::Null,
        serde_json::Value::Bool(b) => Json::Bool(b),
        serde_json::Value::Number(n) => Json::Number(JsonNumber {
            text: n.to_string(),
            as_u64: n.as_u64(),
            as_i64: n.as_i64(),
        }),
        serde_json::Value::String(s) => Json::Text(s),
        serde_json::Value::Array(a) => Json::Array(a.into_iter().map(to_doc).collect()),
        serde_json::Value::Object(m) => Json::Object(
            m.into_iter().map(|(k, x)| (k, to_doc(x))).collect(),
        ),
    }
}

/// Relies on serde_json::from_slice: decodes the bytes as one JSON
/// document, failing exactly on input that is not valid JSON; `to_doc`
/// carries the accepted document over.
#[verifier::external_body]
pub(crate) fn parse_json(bytes: &[u8]) -> (r: Result<Json, serde_json::Error>)
    ensures
        r is Ok == json_parses(bytes@),
        r matches Ok(d) ==> Some(d) == json_doc(bytes@),
{
    serde_json::from_slice::<serde_json::Value>(bytes).map(to_doc)
}

/// Relies on serde_json::Error's Display impl: the decoder's diagnostic text.
#[verifier::external_body]
pub(crate) fn json_error_text(e: &serde_json::Error) -> String {
    e.to_string()
}

} // verus!
