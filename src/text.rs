//! Reading a document from JSON text.
use crate::decode::{decode_document, document_error, document_is, DecodeError};
use crate::json::{Json, Number};
use crate::model::Physics3;
use serde_json::Value;
use vstd::prelude::*;

verus! {

/// serde_json's parsed value, carried opaque.
#[verifier::external_type_specification]
#[verifier::external_body]
pub struct ExValue(Value);

/// The tree that serde_json reads from a JSON text, or `None` where the text
/// is not well-formed JSON.
pub uninterp spec fn json_of_text(text: Seq<char>) -> Option<Json>;

/// Relies on `serde_json::from_str::<serde_json::Value>`: parses the text,
/// and fails only where it is not well-formed JSON. The parsed value is
/// copied into a `Json` by `tree_of`.
#[verifier::external_body]
fn parse_json(text: &str) -> (r: Option<Json>)
    ensures
        r == json_of_text(text@),
{
    serde_json::from_str::<Value>(text).ok().map(tree_of)
}

/// Relies on the variants of `serde_json::Value` and on `Number::as_u64`,
/// `as_i64` and `as_f64`: copies a parsed value into a `Json`, variant for
/// variant and member for member, in the map's order.
#[verifier::external_body]
fn tree_of(v: Value) -> Json {
    match v {
        Value::Null => Json::Null,
        Value::Bool(b) => Json::Bool(b),
        Value::Number(n) => Json::Number(match (n.as_u64(), n.as_i64()) {
            (Some(u), _) => Number::PosInt(u),
            (None, Some(i)) => Number::NegInt(i),
            _ => Number::Float(n.as_f64().map_or(0, |x| x.to_bits())),
        }),
        Value::String(s) => Json::String(s),
        Value::Array(a) => Json::Array(a.into_iter().map(tree_of).collect()),
        Value::Object(o) => Json::Object(o.into_iter().map(|(k, x)| (k, tree_of(x))).collect()),
    }
}

impl Physics3 {
    /// Parses a document from `.physics3.json` text: a syntax error where the
    /// text is not JSON, else exactly what `decode_document` gives on the tree.
    pub fn from_str(text: &str) -> (r: Result<Physics3, DecodeError>)
        ensures
            match json_of_text(text@) {
                None => r == Err::<Physics3, DecodeError>(DecodeError::Syntax),
                Some(j) => match r {
                    Ok(d) => document_error(j) is None && document_is(j, d),
                    Err(e) => document_error(j) == Some(e),
                },
            },
    {
        match parse_json(text) {
            None => Err(DecodeError::Syntax),
            Some(j) => decode_document(&j),
        }
    }
}

} // verus!
