//! Message roles and helper constructors for conversational inputs.
use vstd::prelude::*;

use crate::json::JsonValue;
use crate::types::tool::{parts_view, ContentPart, SpecContentPart};

verus! {

/// Logical role assigned to a message.
#[derive(Debug, Clone, Copy, PartialEq, Eq, Structural)]
pub enum MessageRole {
    /// Provider instructions that shape subsequent generation.
    System,
    /// End-user input.
    User,
    /// Model-authored content, including text and tool calls.
    Assistant,
    /// Tool output fed back into the conversation.
    Tool,
}

/// A provider-agnostic message composed of ordered content parts.
#[derive(Debug, PartialEq)]
pub struct Message {
    /// The role that owns the message.
    pub role: MessageRole,
    /// The content parts in provider-independent form.
    pub content: Vec<ContentPart>,
}

/// Model of [`Message`].
pub struct SpecMessage {
    pub role: MessageRole,
    pub content: Seq<SpecContentPart>,
}

impl View for Message {
    type V = SpecMessage;

    open spec fn view(&self) -> SpecMessage {
        SpecMessage { role: self.role, content: parts_view(self.content@) }
    }
}

impl Message {
    /// Creates a message with the provided role and content parts.
    pub fn new(role: MessageRole, content: Vec<ContentPart>) -> (r: Self)
        ensures
            r.role == role,
            r.content == content,
    {
        Message { role, content }
    }

    /// Creates a system message containing a single text part.
    pub fn system_text(text: &str) -> (r: Self)
        ensures
            r@ == (SpecMessage {
                role: MessageRole::System,
                content: seq![SpecContentPart::Text { text: text@ }],
            }),
    {
        let r = Self::new(MessageRole::System, vec![ContentPart::text(text)]);
        assert(r@.content =~= seq![SpecContentPart::Text { text: text@ }]);
        r
    }

    /// Creates a user message containing a single text part.
    pub fn user_text(text: &str) -> (r: Self)
        ensures
            r@ == (SpecMessage {
                role: MessageRole::User,
                content: seq![SpecContentPart::Text { text: text@ }],
            }),
    {
        let r = Self::new(MessageRole::User, vec![ContentPart::text(text)]);
        assert(r@.content =~= seq![SpecContentPart::Text { text: text@ }]);
        r
    }

    /// Creates an assistant message containing a single text part.
    pub fn assistant_text(text: &str) -> (r: Self)
        ensures
            r@ == (SpecMessage {
                role: MessageRole::Assistant,
                content: seq![SpecContentPart::Text { text: text@ }],
            }),
    {
        let r = Self::new(MessageRole::Assistant, vec![ContentPart::text(text)]);
        assert(r@.content =~= seq![SpecContentPart::Text { text: text@ }]);
        r
    }

    /// Creates an assistant message containing a single tool call part.
    pub fn assistant_tool_call(id: &str, name: &str, arguments_json: JsonValue) -> (r: Self)
        ensures
            r.role == MessageRole::Assistant,
            r.content.len() == 1,
            r.content@[0]@ == ContentPart::tool_call_view(id@, name@, arguments_json@),
    {
        Self::new(MessageRole::Assistant, vec![ContentPart::tool_call(id, name, arguments_json)])
    }

    /// Creates a tool message with a single JSON result part.
    pub fn tool_result_json(tool_call_id: &str, value: JsonValue) -> (r: Self)
        ensures
            r.role == MessageRole::Tool,
            r.content.len() == 1,
            r.content@[0]@ == ContentPart::tool_result_view(
                tool_call_id@,
                crate::types::tool::SpecToolResultContent::Json { value: value@ },
                None,
            ),
    {
        Self::new(MessageRole::Tool, vec![ContentPart::tool_result_json(tool_call_id, value)])
    }

    /// Creates a tool message with a single text result part.
    pub fn tool_result_text(tool_call_id: &str, text: &str) -> (r: Self)
        ensures
            r.role == MessageRole::Tool,
            r.content.len() == 1,
            r.content@[0]@ == ContentPart::tool_result_view(
                tool_call_id@,
                crate::types::tool::SpecToolResultContent::Text { text: text@ },
                None,
            ),
    {
        Self::new(MessageRole::Tool, vec![ContentPart::tool_result_text(tool_call_id, text)])
    }

    /// Creates a tool message with a JSON result and provider-native payload attached.
    pub fn tool_result_json_with_raw(
        tool_call_id: &str,
        value: JsonValue,
        raw_provider_content: JsonValue,
    ) -> (r: Self)
        ensures
            r.role == MessageRole::Tool,
            r.content.len() == 1,
            r.content@[0]@ == ContentPart::tool_result_view(
                tool_call_id@,
                crate::types::tool::SpecToolResultContent::Json { value: value@ },
                Some(raw_provider_content@),
            ),
    {
        Self::new(
            MessageRole::Tool,
            vec![ContentPart::tool_result_json_with_raw(tool_call_id, value, raw_provider_content)],
        )
    }

    /// Creates a tool message with a text result and provider-native payload attached.
    pub fn tool_result_text_with_raw(
        tool_call_id: &str,
        text: &str,
        raw_provider_content: JsonValue,
    ) -> (r: Self)
        ensures
            r.role == MessageRole::Tool,
            r.content.len() == 1,
            r.content@[0]@ == ContentPart::tool_result_view(
                tool_call_id@,
                crate::types::tool::SpecToolResultContent::Text { text: text@ },
                Some(raw_provider_content@),
            ),
    {
        Self::new(
            MessageRole::Tool,
            vec![ContentPart::tool_result_text_with_raw(tool_call_id, text, raw_provider_content)],
        )
    }
}

} // verus!
