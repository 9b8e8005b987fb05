//! Canonical streaming events derived from provider-specific raw events.
use vstd::prelude::*;

use crate::stream::raw::{ostr, ProviderRawStreamEvent};
use crate::types::message::MessageRole;
use crate::types::response::{FinishReason, Usage};

verus! {

/// Descriptor for a canonical stream item when it first appears.
#[derive(Debug, Clone, PartialEq, Eq)]
pub enum StreamOutputItemStart {
    /// A streamed message item.
    Message { item_id: Option<String>, role: MessageRole },
    /// A streamed tool call item.
    ToolCall { item_id: Option<String>, tool_call_id: Option<String>, name: String },
}

/// Descriptor for a canonical stream item once the provider marks it complete.
#[derive(Debug, Clone, PartialEq, Eq)]
pub enum StreamOutputItemEnd {
    /// A completed message item.
    Message { item_id: Option<String> },
    /// A completed tool call item.
    ToolCall {
        item_id: Option<String>,
        tool_call_id: Option<String>,
        name: String,
        /// Final JSON argument text accumulated for the call.
        arguments_json_text: String,
    },
}

/// Provider-independent streaming event emitted by an adapter projector.
#[allow(inconsistent_fields)]
#[derive(Debug, Clone, PartialEq, Eq)]
pub enum CanonicalStreamEvent {
    /// Marks the beginning of a streamed response.
    ResponseStarted { model: Option<String>, response_id: Option<String> },
    /// Starts a new output item at the given output index.
    OutputItemStarted { output_index: u32, item: StreamOutputItemStart },
    /// Appends text to an in-flight message item.
    TextDelta { output_index: u32, content_index: u32, item_id: Option<String>, delta: String },
    /// Appends argument text to an in-flight tool call item.
    ToolCallArgumentsDelta {
        output_index: u32,
        tool_call_index: u32,
        item_id: Option<String>,
        tool_call_id: Option<String>,
        tool_name: Option<String>,
        delta: String,
    },
    /// Completes an output item and includes its final descriptor.
    OutputItemCompleted { output_index: u32, item: StreamOutputItemEnd },
    /// Replaces the latest usage totals observed on the stream.
    UsageUpdated { usage: Usage },
    /// Marks a successful terminal stream state.
    Completed { finish_reason: FinishReason },
    /// Marks a terminal stream failure.
    Failed { message: String },
}

/// Model of [`StreamOutputItemStart`].
pub enum SpecItemStart {
    Message { item_id: Option<Seq<char>>, role: MessageRole },
    ToolCall { item_id: Option<Seq<char>>, tool_call_id: Option<Seq<char>>, name: Seq<char> },
}

/// Model of [`StreamOutputItemEnd`].
pub enum SpecItemEnd {
    Message { item_id: Option<Seq<char>> },
    ToolCall {
        item_id: Option<Seq<char>>,
        tool_call_id: Option<Seq<char>>,
        name: Seq<char>,
        arguments_json_text: Seq<char>,
    },
}

/// Model of [`CanonicalStreamEvent`].
#[allow(inconsistent_fields)]
pub enum SpecCanonicalStreamEvent {
    ResponseStarted { model: Option<Seq<char>>, response_id: Option<Seq<char>> },
    OutputItemStarted { output_index: u32, item: SpecItemStart },
    TextDelta {
        output_index: u32,
        content_index: u32,
        item_id: Option<Seq<char>>,
        delta: Seq<char>,
    },
    ToolCallArgumentsDelta {
        output_index: u32,
        tool_call_index: u32,
        item_id: Option<Seq<char>>,
        tool_call_id: Option<Seq<char>>,
        tool_name: Option<Seq<char>>,
        delta: Seq<char>,
    },
    OutputItemCompleted { output_index: u32, item: SpecItemEnd },
    UsageUpdated { usage: Usage },
    Completed { finish_reason: FinishReason },
    Failed { message: Seq<char> },
}

impl View for StreamOutputItemStart {
    type V = SpecItemStart;

    open spec fn view(&self) -> SpecItemStart {
        match self {
            StreamOutputItemStart::Message { item_id, role } => SpecItemStart::Message {
                item_id: ostr(*item_id),
                role: *role,
            },
            StreamOutputItemStart::ToolCall { item_id, tool_call_id, name } => SpecItemStart::ToolCall {
                item_id: ostr(*item_id),
                tool_call_id: ostr(*tool_call_id),
                name: name@,
            },
        }
    }
}

impl View for StreamOutputItemEnd {
    type V = SpecItemEnd;

    open spec fn view(&self) -> SpecItemEnd {
        match self {
            StreamOutputItemEnd::Message { item_id } => SpecItemEnd::Message { item_id: ostr(*item_id) },
            StreamOutputItemEnd::ToolCall { item_id, tool_call_id, name, arguments_json_text } =>
                SpecItemEnd::ToolCall {
                item_id: ostr(*item_id),
                tool_call_id: ostr(*tool_call_id),
                name: name@,
                arguments_json_text: arguments_json_text@,
            },
        }
    }
}

impl View for CanonicalStreamEvent {
    type V = SpecCanonicalStreamEvent;

    open spec fn view(&self) -> SpecCanonicalStreamEvent {
        match self {
            CanonicalStreamEvent::ResponseStarted { model, response_id } =>
                SpecCanonicalStreamEvent::ResponseStarted {
                model: ostr(*model),
                response_id: ostr(*response_id),
            },
            CanonicalStreamEvent::OutputItemStarted { output_index, item } =>
                SpecCanonicalStreamEvent::OutputItemStarted { output_index: *output_index, item: item@ },
            CanonicalStreamEvent::TextDelta { output_index, content_index, item_id, delta } =>
                SpecCanonicalStreamEvent::TextDelta {
                output_index: *output_index,
                content_index: *content_index,
                item_id: ostr(*item_id),
                delta: delta@,
            },
            CanonicalStreamEvent::ToolCallArgumentsDelta {
                output_index,
                tool_call_index,
                item_id,
                tool_call_id,
                tool_name,
                delta,
            } => SpecCanonicalStreamEvent::ToolCallArgumentsDelta {
                output_index: *output_index,
                tool_call_index: *tool_call_index,
                item_id: ostr(*item_id),
                tool_call_id: ostr(*tool_call_id),
                tool_name: ostr(*tool_name),
                delta: delta@,
            },
            CanonicalStreamEvent::OutputItemCompleted { output_index, item } =>
                SpecCanonicalStreamEvent::OutputItemCompleted { output_index: *output_index, item: item@ },
            CanonicalStreamEvent::UsageUpdated { usage } => SpecCanonicalStreamEvent::UsageUpdated {
                usage: *usage,
            },
            CanonicalStreamEvent::Completed { finish_reason } => SpecCanonicalStreamEvent::Completed {
                finish_reason: *finish_reason,
            },
            CanonicalStreamEvent::Failed { message } => SpecCanonicalStreamEvent::Failed {
                message: message@,
            },
        }
    }
}

/// Model of a sequence of canonical events.
pub open spec fn events_view(events: Seq<CanonicalStreamEvent>) -> Seq<SpecCanonicalStreamEvent> {
    events.map_values(|e: CanonicalStreamEvent| e@)
}

/// A raw provider frame paired with the canonical events derived from it.
#[derive(Debug, PartialEq)]
pub struct CanonicalStreamEnvelope {
    /// The original provider frame.
    pub raw: ProviderRawStreamEvent,
    /// Zero or more canonical events projected from the frame.
    pub canonical: Vec<CanonicalStreamEvent>,
}

} // verus!
