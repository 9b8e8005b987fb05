//! The OpenAI-compatible wire family: errors and wire types.
use vstd::prelude::*;

pub mod error;
pub mod types;

pub use error::{OpenAiFamilyError, OpenAiFamilyErrorKind};

use crate::json::JsonValue;
use crate::types::response::RuntimeWarning;
use crate::types::task::ResponseFormat;

verus! {

/// Encoded OpenAI-family request payload plus non-fatal planning warnings.
#[derive(Debug, PartialEq)]
pub struct OpenAiEncodedRequest {
    /// Provider request body.
    pub body: JsonValue,
    /// Non-fatal warnings produced while encoding the request.
    pub warnings: Vec<RuntimeWarning>,
}

/// Input envelope for decoding an OpenAI-family JSON response.
#[derive(Debug, PartialEq)]
pub struct OpenAiDecodeEnvelope {
    /// Raw JSON response body.
    pub body: JsonValue,
    /// Response format originally requested by the caller.
    pub requested_response_format: ResponseFormat,
}

} // verus!
