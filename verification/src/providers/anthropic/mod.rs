//! The Anthropic Messages wire family: errors, wire shapes, request encoding,
//! response decoding, schema helpers and the streaming projector.
use vstd::prelude::*;

pub mod decode;
pub mod decode_laws;
pub mod encode;
pub mod error;
pub mod schema_rules;
pub mod stream_projector;
pub mod wire;

pub use error::{AnthropicFamilyError, AnthropicFamilyErrorKind};

use crate::json::{JsonValue, SpecJson};
use crate::providers::error::opt_string_view;
use crate::types::response::{warnings_view, RuntimeWarning, SpecRuntimeWarning};
use crate::types::task::{ResponseFormat, SpecResponseFormat};

verus! {

/// The error type of the Anthropic wire contract, under its older name.
pub type AnthropicSpecError = AnthropicFamilyError;

/// The error category of the Anthropic wire contract, under its older name.
pub type AnthropicSpecErrorKind = AnthropicFamilyErrorKind;

/// Encoded Anthropic request payload plus non-fatal planning warnings.
#[derive(Debug, PartialEq)]
pub struct AnthropicEncodedRequest {
    /// Provider request body.
    pub body: JsonValue,
    /// Non-fatal warnings produced while encoding the request.
    pub warnings: Vec<RuntimeWarning>,
}

/// Model of [`AnthropicEncodedRequest`].
pub struct SpecEncodedRequest {
    pub body: SpecJson,
    pub warnings: Seq<SpecRuntimeWarning>,
}

impl View for AnthropicEncodedRequest {
    type V = SpecEncodedRequest;

    open spec fn view(&self) -> SpecEncodedRequest {
        SpecEncodedRequest { body: self.body@, warnings: warnings_view(self.warnings@) }
    }
}

/// Input envelope for decoding an Anthropic JSON response.
#[derive(Debug, PartialEq)]
pub struct AnthropicDecodeEnvelope {
    /// Raw JSON response body.
    pub body: JsonValue,
    /// Response format originally requested by the caller.
    pub requested_response_format: ResponseFormat,
}

/// An Anthropic error payload, its fields rendered as text.
#[derive(Debug, Clone, PartialEq, Eq)]
pub struct AnthropicErrorEnvelope {
    /// Provider message, or a fixed text when none is usable.
    pub message: String,
    /// Provider error type.
    pub error_type: Option<String>,
    /// Provider request identifier.
    pub request_id: Option<String>,
}

/// Model of [`AnthropicErrorEnvelope`].
pub struct SpecErrorEnvelope {
    pub message: Seq<char>,
    pub error_type: Option<Seq<char>>,
    pub request_id: Option<Seq<char>>,
}

impl View for AnthropicErrorEnvelope {
    type V = SpecErrorEnvelope;

    open spec fn view(&self) -> SpecErrorEnvelope {
        SpecErrorEnvelope {
            message: self.message@,
            error_type: opt_string_view(self.error_type),
            request_id: opt_string_view(self.request_id),
        }
    }
}

} // verus!
