//! Errors of the Gemini API client.
use vstd::prelude::*;
use crate::json::JsonValue;
use crate::text::{concat2, decimal, push_decimal};

verus! {

/// What can go wrong when using the Gemini API client.
///
/// Errors of the HTTP layer and of JSON (de)serialization are held as their
/// messages.
#[derive(Debug, Clone)]
pub enum GeminiError {
    /// An HTTP request failed.
    HttpError(String),
    /// The API answered with an error.
    ApiError { status: u16, message: String, details: Option<JsonValue> },
    /// JSON serialization or deserialization failed.
    JsonError(String),
    /// No API key was given.
    MissingApiKey,
    /// The configuration is invalid.
    InvalidConfig(String),
    /// A stream failed.
    StreamError(String),
    /// A file operation failed.
    FileError(String),
}

/// The result of a Gemini operation.
pub type Result<T> = std::result::Result<T, GeminiError>;

impl GeminiError {
    /// The message that describes this error.
    pub open spec fn message_spec(self) -> Seq<char> {
        match self {
            GeminiError::HttpError(e) => "HTTP request failed: "@ + e@,
            GeminiError::ApiError { status, message, .. } => "API error ("@ + decimal(status as nat) + "): "@ + message@,
            GeminiError::JsonError(e) => "JSON error: "@ + e@,
            GeminiError::MissingApiKey => "Missing API key: set GEMINI_API_KEY environment variable"@,
            GeminiError::InvalidConfig(e) => "Invalid configuration: "@ + e@,
            GeminiError::StreamError(e) => "Stream error: "@ + e@,
            GeminiError::FileError(e) => "File operation error: "@ + e@,
        }
    }

    /// The message that describes this error, as [`GeminiError::message_spec`] gives it.
    pub fn to_message(&self) -> (r: String)
        ensures
            r@ == self.message_spec(),
    {
        match self {
            GeminiError::HttpError(e) => concat2("HTTP request failed: ", e.as_str()),
            GeminiError::ApiError { status, message, .. } => {
                let mut r = String::new();
                r.append("API error (");
                push_decimal(&mut r, *status as u64);
                r.append("): ");
                r.append(message.as_str());
                assert(r@ =~= self.message_spec());
                r
            },
            GeminiError::JsonError(e) => concat2("JSON error: ", e.as_str()),
            GeminiError::MissingApiKey => {
                let mut r = String::new();
                r.append("Missing API key: set GEMINI_API_KEY environment variable");
                assert(r@ =~= self.message_spec());
                r
            },
            GeminiError::InvalidConfig(e) => concat2("Invalid configuration: ", e.as_str()),
            GeminiError::StreamError(e) => concat2("Stream error: ", e.as_str()),
            GeminiError::FileError(e) => concat2("File operation error: ", e.as_str()),
        }
    }
}

} // verus!
