//! Provider-agnostic request payload consumed by adapters.
use vstd::prelude::*;

use crate::json::{JsonNumber, SpecJsonNumber};
use crate::types::message::{Message, SpecMessage};
use crate::types::task::{ResponseFormat, SpecResponseFormat};
use crate::types::tool::{SpecToolChoice, SpecToolDefinition, ToolChoice, ToolDefinition};

verus! {

/// A floating-point sampling control (temperature or top_p) as the codecs read it:
/// the JSON number that goes on the wire, whether the value lies in `[0.0, 1.0]`,
/// and the value's `Display` text for diagnostics.
#[derive(Debug, PartialEq)]
pub struct SamplingValue {
    /// The JSON number sent to the provider.
    pub wire: JsonNumber,
    /// Whether the value lies in the closed interval `[0.0, 1.0]`.
    pub in_unit_interval: bool,
    /// The value as its `Display` implementation writes it.
    pub text: String,
}

/// Provider-agnostic request payload produced by the runtime and consumed by adapters.
#[derive(Debug, PartialEq)]
pub struct Request {
    /// Provider model identifier to target.
    pub model_id: String,
    /// Whether the caller expects a streaming response.
    pub stream: bool,
    /// Ordered input messages.
    pub messages: Vec<Message>,
    /// Tool definitions exposed to the model for this request.
    pub tools: Vec<ToolDefinition>,
    /// Tool invocation policy for the request.
    pub tool_choice: ToolChoice,
    /// Requested response encoding or structure.
    pub response_format: ResponseFormat,
    /// Sampling temperature when supported by the provider.
    pub temperature: Option<SamplingValue>,
    /// Nucleus sampling configuration when supported by the provider.
    pub top_p: Option<SamplingValue>,
    /// Upper bound for generated output tokens when supported by the provider.
    pub max_output_tokens: Option<u32>,
    /// Stop sequences to forward to providers that support them.
    pub stop: Vec<String>,
    /// Request-scoped metadata, as (key, value) pairs, each key meant to occur once;
    /// where a key repeats, adapters read its first pair.
    pub metadata: Vec<(String, String)>,
}

/// Model of [`SamplingValue`].
pub struct SpecSamplingValue {
    pub wire: SpecJsonNumber,
    pub in_unit_interval: bool,
    pub text: Seq<char>,
}

impl View for SamplingValue {
    type V = SpecSamplingValue;

    open spec fn view(&self) -> SpecSamplingValue {
        SpecSamplingValue { wire: self.wire@, in_unit_interval: self.in_unit_interval, text: self.text@ }
    }
}

/// Model of an optional sampling control.
pub open spec fn opt_sampling_view(o: Option<SamplingValue>) -> Option<SpecSamplingValue> {
    match o {
        Some(v) => Some(v@),
        None => None,
    }
}

/// Model of [`Request`].
pub struct SpecRequest {
    pub model_id: Seq<char>,
    pub stream: bool,
    pub messages: Seq<SpecMessage>,
    pub tools: Seq<SpecToolDefinition>,
    pub tool_choice: SpecToolChoice,
    pub response_format: SpecResponseFormat,
    pub temperature: Option<SpecSamplingValue>,
    pub top_p: Option<SpecSamplingValue>,
    pub max_output_tokens: Option<u32>,
    pub stop: Seq<Seq<char>>,
    pub metadata: Seq<(Seq<char>, Seq<char>)>,
}

impl View for Request {
    type V = SpecRequest;

    open spec fn view(&self) -> SpecRequest {
        SpecRequest {
            model_id: self.model_id@,
            stream: self.stream,
            messages: self.messages@.map_values(|m: Message| m@),
            tools: self.tools@.map_values(|t: ToolDefinition| t@),
            tool_choice: self.tool_choice@,
            response_format: self.response_format@,
            temperature: opt_sampling_view(self.temperature),
            top_p: opt_sampling_view(self.top_p),
            max_output_tokens: self.max_output_tokens,
            stop: self.stop@.map_values(|s: String| s@),
            metadata: self.metadata@.map_values(|e: (String, String)| (e.0@, e.1@)),
        }
    }
}

} // verus!
