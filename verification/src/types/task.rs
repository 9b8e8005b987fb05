//! Task requests and requested output formats.
use vstd::prelude::*;

use crate::json::{JsonValue, SpecJson};
use crate::types::message::Message;
use crate::types::tool::{ToolChoice, ToolDefinition};

verus! {

/// Requested output format for a model response.
#[derive(Debug, PartialEq)]
pub enum ResponseFormat {
    /// Free-form text output.
    Text,
    /// A single JSON object emitted as text.
    JsonObject,
    /// A named JSON schema for structured output.
    JsonSchema {
        /// Stable schema name sent to providers that require one.
        name: String,
        /// JSON Schema object forwarded to providers.
        schema: JsonValue,
    },
}

/// Model of [`ResponseFormat`].
pub enum SpecResponseFormat {
    Text,
    JsonObject,
    JsonSchema { name: Seq<char>, schema: SpecJson },
}

impl View for ResponseFormat {
    type V = SpecResponseFormat;

    open spec fn view(&self) -> SpecResponseFormat {
        match self {
            ResponseFormat::Text => SpecResponseFormat::Text,
            ResponseFormat::JsonObject => SpecResponseFormat::JsonObject,
            ResponseFormat::JsonSchema { name, schema } => SpecResponseFormat::JsonSchema {
                name: name@,
                schema: schema@,
            },
        }
    }
}

impl Default for ResponseFormat {
    fn default() -> (r: Self)
        ensures
            r@ == SpecResponseFormat::Text,
    {
        ResponseFormat::Text
    }
}

/// Semantic request content independent of route selection and execution mode.
#[derive(Debug, PartialEq)]
pub struct TaskRequest {
    /// Ordered input messages.
    pub messages: Vec<Message>,
    /// Tool definitions exposed to the model for this request.
    pub tools: Vec<ToolDefinition>,
    /// Tool invocation policy for the request.
    pub tool_choice: ToolChoice,
    /// Requested response encoding or structure.
    pub response_format: ResponseFormat,
}

} // verus!
