//! Decoding a JSON text into a document.

use vstd::prelude::*;
use crate::error::{SearchError, SearchFailure};
use crate::json::{JsonTree, JsonValue};
use crate::outside::{decode_document, document_value, json_decoding};

verus! {

/// The document that a text decodes to, or the parse error that carries
/// the decoder's message.
pub open spec fn decoded(text: Seq<char>) -> Result<JsonTree, SearchFailure> {
    match json_decoding(text) {
        Ok(tree) => Ok(tree),
        Err(reason) => Err(SearchFailure::ParseError(reason)),
    }
}

/// Decodes a JSON text. A text that is not valid JSON is a parse error; no
/// part of a document is handed out for it.
pub fn parse_document(text: &str) -> (r: Result<JsonValue, SearchError>)
    ensures
        match r {
            Ok(value) => decoded(text@) == Ok::<JsonTree, SearchFailure>(value@),
            Err(e) => decoded(text@) == Err::<JsonTree, SearchFailure>(e@),
        },
{
    match decode_document(text) {
        Ok(doc) => Ok(document_value(&doc)),
        Err(err) => Err(SearchError::from(err)),
    }
}

} // verus!
