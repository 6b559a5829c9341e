//! The calls into other crates. Everything in this file is believed, not
//! proved: each contract restates what the called crate documents.

use vstd::prelude::*;
use vstd::string::StringSliceAdditionalSpecFns;
use crate::json::{JsonTree, JsonValue};
use crate::query::percent_encoded;

verus! {

/// `serde_json::Value`, a decoded document as the decoder hands it out.
#[verifier::external_type_specification]
#[verifier::external_body]
pub struct ExDocument(serde_json::Value);

/// `serde_json::Error`, the decoder's reason for refusing a text.
#[verifier::external_type_specification]
#[verifier::external_body]
pub struct ExDecodeError(serde_json::Error);

/// What `serde_json::from_str` makes of a text when asked for a
/// `serde_json::Value`: the document's tree, or, for a text that it
/// refuses, the text that `Display` prints for its error.
pub uninterp spec fn json_decoding(text: Seq<char>) -> Result<JsonTree, Seq<char>>;

/// The text that `Display` prints for a `serde_json::Error`.
pub uninterp spec fn decode_error_text(err: serde_json::Error) -> Seq<char>;

/// The text that `Display` prints for a `reqwest::Error`.
pub uninterp spec fn request_error_text(err: reqwest::Error) -> Seq<char>;

/// The tree that a `serde_json::Value` holds. Object members stand in the
/// order in which the value's map walks them; a number stands as the text
/// that its `Display` prints.
pub uninterp spec fn document_tree(doc: serde_json::Value) -> JsonTree;

/// Calls `serde_json::from_str::<serde_json::Value>`. The decoder depends on
/// nothing but the text, so its outcome is `json_decoding` of that text.
#[verifier::external_body]
pub(crate) fn decode_document(text: &str) -> (r: Result<serde_json::Value, serde_json::Error>)
    ensures
        match r {
            Ok(doc) => json_decoding(text@) == Ok::<JsonTree, Seq<char>>(document_tree(doc)),
            Err(err) => json_decoding(text@) == Err::<JsonTree, Seq<char>>(decode_error_text(err)),
        },
{
    serde_json::from_str::<serde_json::Value>(text)
}

/// Copies a `serde_json::Value` into a [`JsonValue`], variant by variant.
/// The result holds exactly `document_tree` of the value.
#[verifier::external_body]
pub(crate) fn document_value(doc: &serde_json::Value) -> (r: JsonValue)
    ensures
        r@ == document_tree(*doc),
{
    match doc {
        serde_json::Value::Null => JsonValue::Null,
        serde_json::Value::Bool(b) => JsonValue::Boolean(*b),
        serde_json::Value::Number(n) => JsonValue::Number(n.to_string()),
        serde_json::Value::String(s) => JsonValue::Text(s.clone()),
        serde_json::Value::Array(a) => JsonValue::Array(a.iter().map(document_value).collect()),
        serde_json::Value::Object(m) => JsonValue::Object(
            m.iter().map(|(k, v)| (k.clone(), document_value(v))).collect(),
        ),
    }
}

/// Calls `to_string` on a `serde_json::Error`, which prints it with `Display`.
#[verifier::external_body]
pub(crate) fn decode_error_message(err: &serde_json::Error) -> (r: String)
    ensures
        r@ == decode_error_text(*err),
{
    err.to_string()
}

/// `reqwest::Error`, the reason for which a request failed.
#[verifier::external_type_specification]
#[verifier::external_body]
pub struct ExRequestError(reqwest::Error);

/// Calls `to_string` on a `reqwest::Error`, which prints it with `Display`.
#[verifier::external_body]
pub(crate) fn request_error_message(err: &reqwest::Error) -> (r: String)
    ensures
        r@ == request_error_text(*err),
{
    err.to_string()
}

/// Calls `urlencoding::encode`, which percent-encodes every byte of the
/// text's UTF-8 form except letters, digits and `-`, `.`, `_`, `~`, with
/// upper-case hexadecimal digits.
#[verifier::external_body]
pub(crate) fn percent_encode(text: &str) -> (r: String)
    ensures
        r@ == percent_encoded(text.spec_bytes()),
{
    urlencoding::encode(text).into_owned()
}

} // verus!
