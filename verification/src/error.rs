//! The ways in which a search can fail.

use vstd::prelude::*;
use vstd::string::*;
use crate::outside::{
    decode_error_message, decode_error_text, request_error_message, request_error_text,
};

verus! {

/// Why a search produced no result list.
#[derive(Debug)]
pub enum SearchError {
    /// The page could not be fetched.
    NetworkError(String),
    /// The embedded data was unbalanced or was not valid JSON.
    ParseError(String),
    /// The page holds no embedded data.
    NotFound(String),
}

/// The mathematical value of a [`SearchError`].
pub enum SearchFailure {
    NetworkError(Seq<char>),
    ParseError(Seq<char>),
    NotFound(Seq<char>),
}

impl SearchFailure {
    /// The line shown for this failure: the kind, a colon, the message.
    pub open spec fn text(self) -> Seq<char> {
        match self {
            SearchFailure::NetworkError(msg) => "Network error: "@ + msg,
            SearchFailure::ParseError(msg) => "Parse error: "@ + msg,
            SearchFailure::NotFound(msg) => "Not found: "@ + msg,
        }
    }
}

impl View for SearchError {
    type V = SearchFailure;

    open spec fn view(&self) -> SearchFailure {
        match self {
            SearchError::NetworkError(msg) => SearchFailure::NetworkError(msg@),
            SearchError::ParseError(msg) => SearchFailure::ParseError(msg@),
            SearchError::NotFound(msg) => SearchFailure::NotFound(msg@),
        }
    }
}

impl SearchError {
    /// The line shown for this error.
    pub fn to_text(&self) -> (line: String)
        ensures
            line@ == self@.text(),
    {
        match self {
            SearchError::NetworkError(msg) => "Network error: ".to_owned().concat(msg.as_str()),
            SearchError::ParseError(msg) => "Parse error: ".to_owned().concat(msg.as_str()),
            SearchError::NotFound(msg) => "Not found: ".to_owned().concat(msg.as_str()),
        }
    }
}

impl From<reqwest::Error> for SearchError {
    /// A failed request is a network error that carries the client's message,
    /// word for word.
    fn from(err: reqwest::Error) -> (e: SearchError)
        ensures
            e@ == SearchFailure::NetworkError(request_error_text(err)),
    {
        SearchError::NetworkError(request_error_message(&err))
    }
}

impl vstd::std_specs::convert::FromSpecImpl<reqwest::Error> for SearchError {
    open spec fn obeys_from_spec() -> bool {
        false
    }

    open spec fn from_spec(err: reqwest::Error) -> SearchError {
        arbitrary()
    }
}

impl From<serde_json::Error> for SearchError {
    /// A decoding failure is a parse error that carries the decoder's message,
    /// word for word.
    fn from(err: serde_json::Error) -> (e: SearchError)
        ensures
            e@ == SearchFailure::ParseError(decode_error_text(err)),
    {
        SearchError::ParseError(decode_error_message(&err))
    }
}

impl vstd::std_specs::convert::FromSpecImpl<serde_json::Error> for SearchError {
    open spec fn obeys_from_spec() -> bool {
        false
    }

    open spec fn from_spec(err: serde_json::Error) -> SearchError {
        arbitrary()
    }
}

} // verus!
