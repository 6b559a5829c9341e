//! Asking one fixed model of the Gemini service, with the key in the
//! request's address.

use vstd::prelude::*;
use vstd::string::*;
use crate::ai::{answer_of, first_text, GeminiResponse};

verus! {

/// The address to which a question is sent, up to the key.
pub const GEMINI_API_URL: &'static str =
    "https://generativelanguage.googleapis.com/v1beta/models/gemini-2.0-flash-exp:generateContent";

/// The address to which a question is sent.
pub fn request_url(api_key: &str) -> (url: String)
    ensures
        url@ == GEMINI_API_URL@ + "?key="@ + api_key@,
{
    GEMINI_API_URL.to_owned().concat("?key=").concat(api_key)
}

/// The message for an answer whose status is no success.
pub fn status_error(status: &str, body: &str) -> (msg: String)
    ensures
        msg@ == "Gemini API error ("@ + status@ + "): "@ + body@,
{
    "Gemini API error (".to_owned().concat(status).concat("): ").concat(body)
}

/// The answer that a response carries, or the message that says that it
/// carries none.
pub fn answer(response: &GeminiResponse) -> (r: Result<String, String>)
    ensures
        match r {
            Ok(text) => answer_of(response.candidates@) == Some(text@),
            Err(msg) => answer_of(response.candidates@) is None && msg@
                == "No response from Gemini"@,
        },
{
    match first_text(response) {
        Some(text) => Ok(text),
        None => Err("No response from Gemini".to_owned()),
    }
}

} // verus!
