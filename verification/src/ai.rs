//! Asking a text-generating service: the errors, the request's address
//! and body, and the choice of the answer from what the service returns.

use vstd::prelude::*;
use vstd::string::*;
use crate::outside::{
    decode_error_message, decode_error_text, request_error_message, request_error_text,
};
use crate::text::{decimal, decimal_text, trim_trailing_slashes, trimmed_of_slashes};

verus! {

/// Why no answer was obtained.
#[derive(Debug)]
pub enum AIError {
    /// The service answered with a status that is no success.
    ApiError { status: u16, message: String },
    NetworkError(String),
    ParseError(String),
    ConfigurationError(String),
    /// The service answered without a text.
    NoResponse,
}

/// The mathematical value of an [`AIError`].
pub enum AiFailure {
    ApiError { status: u16, message: Seq<char> },
    NetworkError(Seq<char>),
    ParseError(Seq<char>),
    ConfigurationError(Seq<char>),
    NoResponse,
}

impl AiFailure {
    /// The line shown for this failure.
    pub open spec fn text(self) -> Seq<char> {
        match self {
            AiFailure::ApiError { status, message } => "API error ("@ + decimal(status as nat)
                + "): "@ + message,
            AiFailure::NetworkError(msg) => "Network error: "@ + msg,
            AiFailure::ParseError(msg) => "Parse error: "@ + msg,
            AiFailure::ConfigurationError(msg) => "Configuration error: "@ + msg,
            AiFailure::NoResponse => "No response received from AI provider"@,
        }
    }
}

impl View for AIError {
    type V = AiFailure;

    open spec fn view(&self) -> AiFailure {
        match self {
            AIError::ApiError { status, message } => AiFailure::ApiError {
                status: *status,
                message: message@,
            },
            AIError::NetworkError(msg) => AiFailure::NetworkError(msg@),
            AIError::ParseError(msg) => AiFailure::ParseError(msg@),
            AIError::ConfigurationError(msg) => AiFailure::ConfigurationError(msg@),
            AIError::NoResponse => AiFailure::NoResponse,
        }
    }
}

impl AIError {
    /// The line shown for this error.
    pub fn to_text(&self) -> (line: String)
        ensures
            line@ == self@.text(),
    {
        match self {
            AIError::ApiError { status, message } => "API error (".to_owned().concat(
                decimal_text(*status as u64).as_str(),
            ).concat("): ").concat(message.as_str()),
            AIError::NetworkError(msg) => "Network error: ".to_owned().concat(msg.as_str()),
            AIError::ParseError(msg) => "Parse error: ".to_owned().concat(msg.as_str()),
            AIError::ConfigurationError(msg) => "Configuration error: ".to_owned().concat(
                msg.as_str(),
            ),
            AIError::NoResponse => "No response received from AI provider".to_owned(),
        }
    }
}

impl From<reqwest::Error> for AIError {
    /// A failed request is a network error that carries the client's message,
    /// word for word.
    fn from(err: reqwest::Error) -> (e: AIError)
        ensures
            e@ == AiFailure::NetworkError(request_error_text(err)),
    {
        AIError::NetworkError(request_error_message(&err))
    }
}

impl vstd::std_specs::convert::FromSpecImpl<reqwest::Error> for AIError {
    open spec fn obeys_from_spec() -> bool {
        false
    }

    open spec fn from_spec(err: reqwest::Error) -> AIError {
        arbitrary()
    }
}

impl From<serde_json::Error> for AIError {
    /// A decoding failure is a parse error that carries the decoder's message,
    /// word for word.
    fn from(err: serde_json::Error) -> (e: AIError)
        ensures
            e@ == AiFailure::ParseError(decode_error_text(err)),
    {
        AIError::ParseError(decode_error_message(&err))
    }
}

impl vstd::std_specs::convert::FromSpecImpl<serde_json::Error> for AIError {
    open spec fn obeys_from_spec() -> bool {
        false
    }

    open spec fn from_spec(err: serde_json::Error) -> AIError {
        arbitrary()
    }
}

/// The body of a request: one content with one part, the prompt.
#[derive(Debug)]
pub struct GeminiRequest {
    pub contents: Vec<Content>,
}

#[derive(Debug)]
pub struct Content {
    pub parts: Vec<Part>,
}

#[derive(Debug)]
pub struct Part {
    pub text: String,
}

/// What the service returns: candidates, each with the parts of its text.
#[derive(Debug)]
pub struct GeminiResponse {
    pub candidates: Vec<Candidate>,
}

#[derive(Debug)]
pub struct Candidate {
    pub content: ResponseContent,
}

#[derive(Debug)]
pub struct ResponseContent {
    pub parts: Vec<ResponsePart>,
}

#[derive(Debug)]
pub struct ResponsePart {
    pub text: String,
}

/// The answer that a response carries: the text of the first part of its
/// first candidate.
pub open spec fn answer_of(candidates: Seq<Candidate>) -> Option<Seq<char>> {
    if candidates.len() > 0 && candidates[0].content.parts@.len() > 0 {
        Some(candidates[0].content.parts@[0].text@)
    } else {
        None
    }
}

/// Puts a prompt into the body of a request.
pub fn request_for(prompt: &str) -> (request: GeminiRequest)
    ensures
        request.contents@.len() == 1,
        request.contents@[0].parts@.len() == 1,
        request.contents@[0].parts@[0].text@ == prompt@,
{
    let mut parts: Vec<Part> = Vec::new();
    parts.push(Part { text: prompt.to_owned() });
    let mut contents: Vec<Content> = Vec::new();
    contents.push(Content { parts });
    GeminiRequest { contents }
}

/// Reads the answer out of a response.
pub fn first_text(response: &GeminiResponse) -> (text: Option<String>)
    ensures
        match text {
            Some(s) => answer_of(response.candidates@) == Some(s@),
            None => answer_of(response.candidates@) is None,
        },
{
    if response.candidates.len() == 0 {
        return None;
    }
    let parts = &response.candidates[0].content.parts;
    if parts.len() == 0 {
        return None;
    }
    Some(parts[0].text.clone())
}

/// The address of the service's models, where none is configured.
pub const DEFAULT_API_URL: &'static str = "https://generativelanguage.googleapis.com/v1beta/models";

/// The model that is asked, where none is configured.
pub const DEFAULT_MODEL: &'static str = "gemini-2.5-flash";

/// The settings with which the Gemini service is asked.
pub struct GeminiProvider {
    pub api_key: String,
    pub api_url: String,
    pub model: String,
}

impl GeminiProvider {
    pub fn new(api_key: String, api_url: String, model: String) -> (provider: Self)
        ensures
            provider.api_key == api_key,
            provider.api_url == api_url,
            provider.model == model,
    {
        GeminiProvider { api_key, api_url, model }
    }

    /// Makes the settings from the values of the variables `GEMINI_API_KEY`,
    /// `GEMINI_API_URL` and `GEMINI_MODEL`, each of which is absent where
    /// the variable is not set. The key is needed; the other two have
    /// defaults.
    pub fn from_env(api_key: Option<String>, api_url: Option<String>, model: Option<String>) -> (r:
        Result<Self, AIError>)
        ensures
            match r {
                Ok(provider) => {
                    &&& api_key == Some(provider.api_key)
                    &&& provider.api_url@ == match api_url {
                        Some(url) => url@,
                        None => DEFAULT_API_URL@,
                    }
                    &&& provider.model@ == match model {
                        Some(m) => m@,
                        None => DEFAULT_MODEL@,
                    }
                },
                Err(e) => api_key is None && e@ == AiFailure::ConfigurationError(
                    "GEMINI_API_KEY environment variable not set"@,
                ),
            },
    {
        let key = match api_key {
            Some(key) => key,
            None => {
                return Err(
                    AIError::ConfigurationError(
                        "GEMINI_API_KEY environment variable not set".to_owned(),
                    ),
                );
            },
        };
        let url = match api_url {
            Some(url) => url,
            None => DEFAULT_API_URL.to_owned(),
        };
        let model = match model {
            Some(m) => m,
            None => DEFAULT_MODEL.to_owned(),
        };
        Ok(GeminiProvider::new(key, url, model))
    }

    /// The address to which a prompt is sent: the models' address without
    /// slashes at its end, a slash, the model, and the method.
    pub fn endpoint(&self) -> (url: String)
        ensures
            url@ == trimmed_of_slashes(self.api_url@) + "/"@ + self.model@ + ":generateContent"@,
    {
        trim_trailing_slashes(self.api_url.as_str()).to_owned().concat("/").concat(
            self.model.as_str(),
        ).concat(":generateContent")
    }

    /// The error for an answer whose status is no success. Where the
    /// answer's body could not be read, the message says so.
    pub fn api_error(status: u16, body: Option<String>) -> (e: AIError)
        ensures
            e@ == (AiFailure::ApiError {
                status,
                message: match body {
                    Some(text) => text@,
                    None => "Unknown error"@,
                },
            }),
    {
        let message = match body {
            Some(text) => text,
            None => "Unknown error".to_owned(),
        };
        AIError::ApiError { status, message }
    }

    /// The answer that a response carries, or the error that says that it
    /// carries none.
    pub fn answer(response: &GeminiResponse) -> (r: Result<String, AIError>)
        ensures
            match r {
                Ok(text) => answer_of(response.candidates@) == Some(text@),
                Err(e) => answer_of(response.candidates@) is None && e@ == AiFailure::NoResponse,
            },
    {
        match first_text(response) {
            Some(text) => Ok(text),
            None => Err(AIError::NoResponse),
        }
    }

    /// The name of this provider.
    pub fn name(&self) -> (name: &'static str)
        ensures
            name@ == "Gemini"@,
    {
        "Gemini"
    }
}

} // verus!
