//! Normalized response models returned from provider adapters.
use vstd::prelude::*;

use crate::json::{JsonValue, SpecJson};
use crate::types::tool::{parts_view, opt_json_view, ContentPart, SpecContentPart};

verus! {

/// Token accounting reported by providers or derived by the runtime.
#[derive(Debug, Clone, Copy, PartialEq, Eq, Structural)]
pub struct Usage {
    /// Input prompt tokens.
    pub input_tokens: Option<u64>,
    /// Generated output tokens.
    pub output_tokens: Option<u64>,
    /// Prompt tokens served from cache when a provider exposes that detail.
    pub cached_input_tokens: Option<u64>,
    /// Provider-reported total token count.
    pub total_tokens: Option<u64>,
}

impl Default for Usage {
    fn default() -> (r: Self)
        ensures
            r == Usage::empty(),
    {
        Usage { input_tokens: None, output_tokens: None, cached_input_tokens: None, total_tokens: None }
    }
}

/// `a + b` clamped to `u64::MAX`.
pub open spec fn saturating_sum(a: u64, b: u64) -> u64 {
    if a + b > u64::MAX {
        u64::MAX
    } else {
        (a + b) as u64
    }
}

/// The count, or zero when absent.
pub open spec fn or_zero(v: Option<u64>) -> u64 {
    match v {
        Some(x) => x,
        None => 0,
    }
}

impl Usage {
    /// Usage with every count absent.
    pub open spec fn empty() -> Usage {
        Usage { input_tokens: None, output_tokens: None, cached_input_tokens: None, total_tokens: None }
    }

    /// The provider total when present, else the saturating sum of input and output tokens.
    pub open spec fn spec_derived_total_tokens(self) -> u64 {
        match self.total_tokens {
            Some(t) => t,
            None => saturating_sum(or_zero(self.input_tokens), or_zero(self.output_tokens)),
        }
    }

    /// Returns `total_tokens` when present, otherwise derives it as `input_tokens + output_tokens`.
    pub fn derived_total_tokens(&self) -> (r: u64)
        ensures
            r == self.spec_derived_total_tokens(),
    {
        match self.total_tokens {
            Some(t) => t,
            None => {
                let a = match self.input_tokens {
                    Some(x) => x,
                    None => 0,
                };
                let b = match self.output_tokens {
                    Some(x) => x,
                    None => 0,
                };
                a.saturating_add(b)
            },
        }
    }
}

/// Provider-independent reason a response finished.
#[derive(Debug, Clone, Copy, PartialEq, Eq, Structural)]
pub enum FinishReason {
    /// The model finished normally.
    Stop,
    /// Generation stopped because a token limit was reached.
    Length,
    /// The model stopped to return tool calls.
    ToolCalls,
    /// The provider filtered the response content.
    ContentFilter,
    /// The response terminated because of an error.
    Error,
    /// A finish state that does not map cleanly to the canonical enum.
    Other,
}

/// Non-fatal issue produced while encoding, decoding, or normalizing.
#[derive(Debug, Clone, PartialEq, Eq)]
pub struct RuntimeWarning {
    /// Stable warning code for programmatic handling.
    pub code: String,
    /// Human-readable warning detail.
    pub message: String,
}

/// Model of [`RuntimeWarning`].
pub struct SpecRuntimeWarning {
    pub code: Seq<char>,
    pub message: Seq<char>,
}

impl View for RuntimeWarning {
    type V = SpecRuntimeWarning;

    open spec fn view(&self) -> SpecRuntimeWarning {
        SpecRuntimeWarning { code: self.code@, message: self.message@ }
    }
}

/// Model of a sequence of warnings.
pub open spec fn warnings_view(ws: Seq<RuntimeWarning>) -> Seq<SpecRuntimeWarning> {
    ws.map_values(|w: RuntimeWarning| w@)
}

/// Final assistant output returned by a provider adapter.
#[derive(Debug, PartialEq)]
pub struct AssistantOutput {
    /// Ordered assistant content parts such as text and tool calls.
    pub content: Vec<ContentPart>,
    /// Parsed structured output when a JSON response format was requested.
    pub structured_output: Option<JsonValue>,
}

/// Model of [`AssistantOutput`].
pub struct SpecAssistantOutput {
    pub content: Seq<SpecContentPart>,
    pub structured_output: Option<SpecJson>,
}

impl View for AssistantOutput {
    type V = SpecAssistantOutput;

    open spec fn view(&self) -> SpecAssistantOutput {
        SpecAssistantOutput {
            content: parts_view(self.content@),
            structured_output: opt_json_view(self.structured_output),
        }
    }
}

/// Normalized provider response returned to the runtime.
#[derive(Debug, PartialEq)]
pub struct Response {
    /// Assistant output content and any decoded structured payload.
    pub output: AssistantOutput,
    /// Usage totals reported by the provider or runtime.
    pub usage: Usage,
    /// Model identifier returned by the provider.
    pub model: String,
    /// Provider-native response payload retained for inspection.
    pub raw_provider_response: Option<JsonValue>,
    /// Canonical completion reason.
    pub finish_reason: FinishReason,
    /// Non-fatal warnings accumulated during normalization.
    pub warnings: Vec<RuntimeWarning>,
}

/// Model of [`Response`].
pub struct SpecResponse {
    pub output: SpecAssistantOutput,
    pub usage: Usage,
    pub model: Seq<char>,
    pub raw_provider_response: Option<SpecJson>,
    pub finish_reason: FinishReason,
    pub warnings: Seq<SpecRuntimeWarning>,
}

impl View for Response {
    type V = SpecResponse;

    open spec fn view(&self) -> SpecResponse {
        SpecResponse {
            output: self.output@,
            usage: self.usage,
            model: self.model@,
            raw_provider_response: opt_json_view(self.raw_provider_response),
            finish_reason: self.finish_reason,
            warnings: warnings_view(self.warnings@),
        }
    }
}

} // verus!
