//! Tool definitions, tool calls and mixed-content message parts.
use vstd::prelude::*;

use crate::json::{JsonValue, SpecJson};
use crate::text::owned;

verus! {

/// Tool selection policy to send to a provider.
#[derive(Debug, Clone, PartialEq, Eq)]
pub enum ToolChoice {
    /// Disable tool use for the request.
    Disabled,
    /// Let the model decide whether to call a tool.
    Auto,
    /// Require the model to call a tool before completing.
    Required,
    /// Force selection of a specific tool by name.
    Specific { name: String },
}

/// Model of [`ToolChoice`].
pub enum SpecToolChoice {
    Disabled,
    Auto,
    Required,
    Specific { name: Seq<char> },
}

impl View for ToolChoice {
    type V = SpecToolChoice;

    open spec fn view(&self) -> SpecToolChoice {
        match self {
            ToolChoice::Disabled => SpecToolChoice::Disabled,
            ToolChoice::Auto => SpecToolChoice::Auto,
            ToolChoice::Required => SpecToolChoice::Required,
            ToolChoice::Specific { name } => SpecToolChoice::Specific { name: name@ },
        }
    }
}

impl Default for ToolChoice {
    fn default() -> (r: Self)
        ensures
            r == ToolChoice::Auto,
    {
        ToolChoice::Auto
    }
}

/// Provider-agnostic tool definition exposed to the model.
#[derive(Debug, PartialEq)]
pub struct ToolDefinition {
    /// Stable tool name referenced by tool choice and tool calls.
    pub name: String,
    /// Optional human-readable description shown to the model.
    pub description: Option<String>,
    /// JSON Schema object describing the tool input shape.
    pub parameters_schema: JsonValue,
}

/// Model of [`ToolDefinition`].
pub struct SpecToolDefinition {
    pub name: Seq<char>,
    pub description: Option<Seq<char>>,
    pub parameters_schema: SpecJson,
}

impl View for ToolDefinition {
    type V = SpecToolDefinition;

    open spec fn view(&self) -> SpecToolDefinition {
        SpecToolDefinition {
            name: self.name@,
            description: match self.description {
                Some(d) => Some(d@),
                None => None,
            },
            parameters_schema: self.parameters_schema@,
        }
    }
}

/// Canonical representation of tool output content.
#[derive(Debug, PartialEq)]
pub enum ToolResultContent {
    /// Plain text tool output.
    Text { text: String },
    /// Structured JSON tool output.
    Json { value: JsonValue },
    /// Provider-neutral multipart output.
    Parts { parts: Vec<ContentPart> },
}

/// A model-emitted tool invocation.
#[derive(Debug, PartialEq)]
pub struct ToolCall {
    /// Identifier for matching results to the call.
    pub id: String,
    /// Tool name.
    pub name: String,
    /// Parsed JSON arguments supplied by the model.
    pub arguments_json: JsonValue,
}

/// Tool output returned to a model in a follow-up message.
#[derive(Debug, PartialEq)]
pub struct ToolResult {
    /// Identifier of the tool call this result satisfies.
    pub tool_call_id: String,
    /// Canonicalized result payload.
    pub content: ToolResultContent,
    /// Optional provider-native payload preserved for adapters.
    pub raw_provider_content: Option<JsonValue>,
}

/// A single piece of message content.
#[derive(Debug, PartialEq)]
pub enum ContentPart {
    /// Plain text.
    Text { text: String },
    /// A model-issued tool call.
    ToolCall { tool_call: ToolCall },
    /// A tool result included in a follow-up tool message.
    ToolResult { tool_result: ToolResult },
}

/// Model of [`ToolCall`].
pub struct SpecToolCall {
    pub id: Seq<char>,
    pub name: Seq<char>,
    pub arguments_json: SpecJson,
}

/// Model of [`ToolResultContent`].
pub enum SpecToolResultContent {
    Text { text: Seq<char> },
    Json { value: SpecJson },
    Parts { parts: Seq<SpecContentPart> },
}

/// Model of [`ToolResult`].
pub struct SpecToolResult {
    pub tool_call_id: Seq<char>,
    pub content: SpecToolResultContent,
    pub raw_provider_content: Option<SpecJson>,
}

/// Model of [`ContentPart`].
pub enum SpecContentPart {
    Text { text: Seq<char> },
    ToolCall { tool_call: SpecToolCall },
    ToolResult { tool_result: SpecToolResult },
}

/// Model of an optional JSON document.
pub open spec fn opt_json_view(v: Option<JsonValue>) -> Option<SpecJson> {
    match v {
        Some(j) => Some(j@),
        None => None,
    }
}

impl View for ToolCall {
    type V = SpecToolCall;

    open spec fn view(&self) -> SpecToolCall {
        SpecToolCall { id: self.id@, name: self.name@, arguments_json: self.arguments_json@ }
    }
}

impl ContentPart {
    pub open spec fn spec_view(&self) -> SpecContentPart
        decreases self,
    {
        match self {
            ContentPart::Text { text } => SpecContentPart::Text { text: text@ },
            ContentPart::ToolCall { tool_call } => SpecContentPart::ToolCall {
                tool_call: tool_call@,
            },
            ContentPart::ToolResult { tool_result } => SpecContentPart::ToolResult {
                tool_result: SpecToolResult {
                    tool_call_id: tool_result.tool_call_id@,
                    content: match &tool_result.content {
                        ToolResultContent::Text { text } => SpecToolResultContent::Text {
                            text: text@,
                        },
                        ToolResultContent::Json { value } => SpecToolResultContent::Json {
                            value: value@,
                        },
                        ToolResultContent::Parts { parts } => SpecToolResultContent::Parts {
                            parts: Seq::new(
                                parts.len() as nat,
                                |i: int|
                                    if 0 <= i < parts.len() {
                                        parts@[i].spec_view()
                                    } else {
                                        SpecContentPart::Text { text: Seq::empty() }
                                    },
                            ),
                        },
                    },
                    raw_provider_content: opt_json_view(tool_result.raw_provider_content),
                },
            },
        }
    }
}

impl View for ContentPart {
    type V = SpecContentPart;

    open spec fn view(&self) -> SpecContentPart {
        self.spec_view()
    }
}

impl View for ToolResult {
    type V = SpecToolResult;

    open spec fn view(&self) -> SpecToolResult {
        (ContentPart::ToolResult { tool_result: *self })@->tool_result
    }
}

impl ContentPart {
    /// The model of a tool-call part.
    pub open spec fn tool_call_view(id: Seq<char>, name: Seq<char>, arguments_json: SpecJson) -> SpecContentPart {
        SpecContentPart::ToolCall { tool_call: SpecToolCall { id, name, arguments_json } }
    }

    /// The model of a tool-result part.
    pub open spec fn tool_result_view(
        tool_call_id: Seq<char>,
        content: SpecToolResultContent,
        raw_provider_content: Option<SpecJson>,
    ) -> SpecContentPart {
        SpecContentPart::ToolResult {
            tool_result: SpecToolResult { tool_call_id, content, raw_provider_content },
        }
    }
}

/// Model of a sequence of content parts.
pub open spec fn parts_view(parts: Seq<ContentPart>) -> Seq<SpecContentPart> {
    parts.map_values(|p: ContentPart| p@)
}

impl ContentPart {
    /// Creates a text content part.
    pub fn text(text: &str) -> (r: Self)
        ensures
            r@ == (SpecContentPart::Text { text: text@ }),
    {
        ContentPart::Text { text: owned(text) }
    }

    /// Creates a tool call content part.
    pub fn tool_call(id: &str, name: &str, arguments_json: JsonValue) -> (r: Self)
        ensures
            r@ == (SpecContentPart::ToolCall {
                tool_call: SpecToolCall {
                    id: id@,
                    name: name@,
                    arguments_json: arguments_json@,
                },
            }),
    {
        ContentPart::ToolCall {
            tool_call: ToolCall { id: owned(id), name: owned(name), arguments_json },
        }
    }

    /// Creates a JSON tool result content part.
    pub fn tool_result_json(tool_call_id: &str, value: JsonValue) -> (r: Self)
        ensures
            r@ == (SpecContentPart::ToolResult {
                tool_result: SpecToolResult {
                    tool_call_id: tool_call_id@,
                    content: SpecToolResultContent::Json { value: value@ },
                    raw_provider_content: None,
                },
            }),
    {
        ContentPart::ToolResult {
            tool_result: ToolResult {
                tool_call_id: owned(tool_call_id),
                content: ToolResultContent::Json { value },
                raw_provider_content: None,
            },
        }
    }

    /// Creates a text tool result content part.
    pub fn tool_result_text(tool_call_id: &str, text: &str) -> (r: Self)
        ensures
            r@ == (SpecContentPart::ToolResult {
                tool_result: SpecToolResult {
                    tool_call_id: tool_call_id@,
                    content: SpecToolResultContent::Text { text: text@ },
                    raw_provider_content: None,
                },
            }),
    {
        ContentPart::ToolResult {
            tool_result: ToolResult {
                tool_call_id: owned(tool_call_id),
                content: ToolResultContent::Text { text: owned(text) },
                raw_provider_content: None,
            },
        }
    }

    /// Creates a JSON tool result content part with provider-native content attached.
    pub fn tool_result_json_with_raw(
        tool_call_id: &str,
        value: JsonValue,
        raw_provider_content: JsonValue,
    ) -> (r: Self)
        ensures
            r@ == (SpecContentPart::ToolResult {
                tool_result: SpecToolResult {
                    tool_call_id: tool_call_id@,
                    content: SpecToolResultContent::Json { value: value@ },
                    raw_provider_content: Some(raw_provider_content@),
                },
            }),
    {
        ContentPart::ToolResult {
            tool_result: ToolResult {
                tool_call_id: owned(tool_call_id),
                content: ToolResultContent::Json { value },
                raw_provider_content: Some(raw_provider_content),
            },
        }
    }

    /// Creates a text tool result content part with provider-native content attached.
    pub fn tool_result_text_with_raw(
        tool_call_id: &str,
        text: &str,
        raw_provider_content: JsonValue,
    ) -> (r: Self)
        ensures
            r@ == (SpecContentPart::ToolResult {
                tool_result: SpecToolResult {
                    tool_call_id: tool_call_id@,
                    content: SpecToolResultContent::Text { text: text@ },
                    raw_provider_content: Some(raw_provider_content@),
                },
            }),
    {
        ContentPart::ToolResult {
            tool_result: ToolResult {
                tool_call_id: owned(tool_call_id),
                content: ToolResultContent::Text { text: owned(text) },
                raw_provider_content: Some(raw_provider_content),
            },
        }
    }
}

} // verus!
