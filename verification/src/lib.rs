//! Provider-agnostic agent types, a JSON wire model and provider codecs.

pub mod json;
pub mod providers;
pub mod stream;
pub mod text;
pub mod types;

pub use stream::{
    CanonicalStreamEnvelope, CanonicalStreamEvent, CanonicalStreamProjector,
    ProviderRawStreamEvent, RawStreamPayload, RawStreamTransport, StreamOutputItemEnd,
    StreamOutputItemStart,
};
pub use types::{
    AssistantOutput, ContentPart, FinishReason, Message, MessageRole, ProviderCapabilities,
    ProviderDescriptor, ProviderFamilyId, ProviderId, ProviderInstanceId, ProviderKind, Request,
    Response, ResponseFormat, RuntimeWarning, TaskRequest, ToolCall, ToolChoice, ToolDefinition,
    ToolResult, ToolResultContent, Usage,
};
