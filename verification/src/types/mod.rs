//! Provider-agnostic types for requests, responses, messages, tools and platforms.

pub mod identity;
pub mod message;
pub mod native_options;
pub mod planning;
pub mod platform;
pub mod request;
pub mod response;
pub mod task;
pub mod tool;

pub use identity::{
    ProviderCapabilities, ProviderDescriptor, ProviderFamilyId, ProviderId, ProviderInstanceId,
    ProviderKind,
};
pub use message::{Message, MessageRole, SpecMessage};
pub use native_options::{
    AnthropicCacheControl, AnthropicCacheControlTTL, AnthropicCacheControlType,
    AnthropicFamilyOptions, AnthropicOptions, AnthropicOutputConfig, AnthropicOutputEffort,
    AnthropicOutputFormat, AnthropicOutputFormatType, AnthropicServiceTier, AnthropicThinking,
    AnthropicThinkingBudget, AnthropicThinkingDisplay, AnthropicToolChoiceOptions, FamilyOptions,
    NativeOptions, OpenAiCompatibleOptions, OpenAiCompatibleReasoning,
    OpenAiCompatibleReasoningEffort, OpenAiCompatibleReasoningSummary, OpenAiOptions,
    OpenAiPromptCacheRetention, OpenAiServiceTier, OpenAiTextOptions, OpenAiTextVerbosity,
    OpenAiTruncation, OpenRouterAutoRouterPlugin, OpenRouterContextCompressionEngine,
    OpenRouterContextCompressionPlugin, OpenRouterFileParserPdfEngine,
    OpenRouterFileParserPdfOptions, OpenRouterFileParserPlugin, OpenRouterImageConfigValue,
    OpenRouterModerationPlugin, OpenRouterOptions, OpenRouterPlugin,
    OpenRouterResponseHealingPlugin, OpenRouterTextOptions, OpenRouterTextVerbosity,
    OpenRouterTrace, OpenRouterWebPlugin, OpenRouterWebPluginEngine, ProviderOptions,
};
pub use planning::{
    ExecutionPlan, ResolvedAuthContext, ResolvedProviderAttempt, ResolvedTransportOptions,
    ResponseMode, TransportTimeoutOverrides,
};
pub use platform::{AdapterContext, AuthCredentials, AuthStyle, PlatformConfig, ProtocolKind};
pub use request::{Request, SamplingValue};
pub use response::{
    AssistantOutput, FinishReason, Response, RuntimeWarning, SpecAssistantOutput, SpecResponse,
    SpecRuntimeWarning, Usage,
};
pub use task::{ResponseFormat, SpecResponseFormat, TaskRequest};
pub use tool::{
    ContentPart, SpecContentPart, SpecToolCall, SpecToolChoice, SpecToolResult,
    SpecToolResultContent, ToolCall, ToolChoice, ToolDefinition, ToolResult, ToolResultContent,
};
