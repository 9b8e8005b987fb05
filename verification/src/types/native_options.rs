//! Layered family-scoped and provider-scoped native request controls.
//!
//! Floating-point controls are carried as the JSON number sent on the wire.
use vstd::prelude::*;

use crate::json::{JsonNumber, JsonValue};
use crate::types::identity::{ProviderFamilyId, ProviderKind};

verus! {

/// Shared request controls owned by the OpenAI-compatible family codec.
#[derive(Debug, PartialEq, Default)]
pub struct OpenAiCompatibleOptions {
    /// Controls whether the provider may execute tool calls in parallel.
    pub parallel_tool_calls: Option<bool>,
    /// Family-scoped reasoning controls forwarded when supported.
    pub reasoning: Option<OpenAiCompatibleReasoning>,
    /// Shared temperature control, as its JSON number.
    pub temperature: Option<JsonNumber>,
    /// Shared nucleus sampling control, as its JSON number.
    pub top_p: Option<JsonNumber>,
    /// Shared output token budget control.
    pub max_output_tokens: Option<u32>,
}

/// OpenAI-compatible reasoning controls.
#[derive(Debug, Clone, Copy, PartialEq, Eq, Default, Structural)]
pub struct OpenAiCompatibleReasoning {
    /// Reasoning effort level requested from the model.
    pub effort: Option<OpenAiCompatibleReasoningEffort>,
    /// Reasoning summary detail level requested from the model.
    pub summary: Option<OpenAiCompatibleReasoningSummary>,
}

/// OpenAI-compatible reasoning effort levels (`Disabled` is the wire value `none`).
#[derive(Debug, Clone, Copy, PartialEq, Eq, Structural)]
pub enum OpenAiCompatibleReasoningEffort {
    Disabled,
    Minimal,
    Low,
    Medium,
    High,
    Xhigh,
}

/// OpenAI-compatible reasoning summary levels.
#[derive(Debug, Clone, Copy, PartialEq, Eq, Structural)]
pub enum OpenAiCompatibleReasoningSummary {
    Auto,
    Concise,
    Detailed,
}

/// Anthropic thinking display modes.
#[derive(Debug, Clone, Copy, PartialEq, Eq, Structural)]
pub enum AnthropicThinkingDisplay {
    Summarized,
    Omitted,
}

/// Anthropic extended-thinking budget in tokens; never zero.
#[derive(Debug, Clone, Copy, PartialEq, Eq, PartialOrd, Ord)]
pub struct AnthropicThinkingBudget(u32);

impl AnthropicThinkingBudget {
    #[verifier::type_invariant]
    spec fn non_zero(self) -> bool {
        self.0 != 0
    }

    /// The budget's token count.
    pub closed spec fn spec_get(self) -> u32 {
        self.0
    }

    /// Creates a non-zero budget value; `None` for zero.
    pub fn new(value: u32) -> (r: Option<Self>)
        ensures
            value == 0 ==> r is None,
            value != 0 ==> (r matches Some(b) && b.spec_get() == value),
    {
        if value == 0 {
            None
        } else {
            Some(AnthropicThinkingBudget(value))
        }
    }

    /// Returns the underlying token count.
    pub fn get(self) -> (r: u32)
        ensures
            r == self.spec_get(),
            r != 0,
    {
        proof {
            use_type_invariant(&self);
        }
        self.0
    }
}

/// Anthropic Messages `thinking` configuration.
#[derive(Debug, Clone, Copy, PartialEq, Eq)]
pub enum AnthropicThinking {
    Disabled,
    Enabled { budget_tokens: AnthropicThinkingBudget, display: Option<AnthropicThinkingDisplay> },
    Adaptive { display: Option<AnthropicThinkingDisplay> },
}

/// Shared request controls owned by the Anthropic family codec.
#[derive(Debug, Clone, Copy, PartialEq, Eq, Default)]
pub struct AnthropicFamilyOptions {
    /// Family-scoped thinking controls forwarded when supported.
    pub thinking: Option<AnthropicThinking>,
}

/// OpenAI-specific request controls outside the shared task and family layers.
#[derive(Debug, Clone, PartialEq, Default)]
pub struct OpenAiOptions {
    /// Request metadata forwarded to OpenAI, as (key, value) pairs, each key meant to occur once.
    pub metadata: Vec<(String, String)>,
    /// Requested OpenAI Responses `service_tier`.
    pub service_tier: Option<OpenAiServiceTier>,
    /// Whether the response should be stored by OpenAI.
    pub store: Option<bool>,
    /// OpenAI Responses `prompt_cache_key`.
    pub prompt_cache_key: Option<String>,
    /// OpenAI Responses `prompt_cache_retention`.
    pub prompt_cache_retention: Option<OpenAiPromptCacheRetention>,
    /// OpenAI Responses `truncation` mode.
    pub truncation: Option<OpenAiTruncation>,
    /// Nested OpenAI Responses `text` controls.
    pub text: Option<OpenAiTextOptions>,
    /// OpenAI Responses `safety_identifier`.
    pub safety_identifier: Option<String>,
}

/// OpenAI service tiers.
#[derive(Debug, Clone, Copy, PartialEq, Eq, Structural)]
pub enum OpenAiServiceTier {
    Auto,
    Default,
    Flex,
    Scale,
    Priority,
}

/// OpenAI prompt-cache retention policy.
#[derive(Debug, Clone, Copy, PartialEq, Eq, Structural)]
pub enum OpenAiPromptCacheRetention {
    InMemory,
    TwentyFourHours,
}

/// OpenAI truncation behavior.
#[derive(Debug, Clone, Copy, PartialEq, Eq, Structural)]
pub enum OpenAiTruncation {
    Auto,
    Disabled,
}

/// OpenAI nested `text` request controls.
#[derive(Debug, Clone, Copy, PartialEq, Eq, Default, Structural)]
pub struct OpenAiTextOptions {
    /// Controls response verbosity.
    pub verbosity: Option<OpenAiTextVerbosity>,
}

/// OpenAI text verbosity levels.
#[derive(Debug, Clone, Copy, PartialEq, Eq, Structural)]
pub enum OpenAiTextVerbosity {
    Low,
    Medium,
    High,
}

/// Anthropic-specific request controls outside the shared task and family layers.
#[derive(Debug, PartialEq, Default)]
pub struct AnthropicOptions {
    /// Anthropic Messages `temperature`, as its JSON number.
    pub temperature: Option<JsonNumber>,
    /// Anthropic Messages `top_p`, as its JSON number.
    pub top_p: Option<JsonNumber>,
    /// Anthropic Messages `max_tokens`.
    pub max_tokens: Option<u32>,
    /// Anthropic Messages `top_k`.
    pub top_k: Option<u32>,
    /// Anthropic Messages `stop_sequences`.
    pub stop_sequences: Vec<String>,
    /// Anthropic Messages `metadata.user_id`.
    pub metadata_user_id: Option<String>,
    /// Anthropic Messages `output_config`.
    pub output_config: Option<AnthropicOutputConfig>,
    /// Anthropic Messages `service_tier`.
    pub service_tier: Option<AnthropicServiceTier>,
    /// Anthropic Messages nested `tool_choice` overrides.
    pub tool_choice: Option<AnthropicToolChoiceOptions>,
    /// Anthropic Messages `inference_geo`.
    pub inference_geo: Option<String>,
}

/// Anthropic `cache_control` settings.
#[derive(Debug, Clone, Copy, PartialEq, Eq, Structural)]
pub struct AnthropicCacheControl {
    /// Cache control type (`type` on the wire).
    pub type_: AnthropicCacheControlType,
    /// Optional cache lifetime.
    pub ttl: Option<AnthropicCacheControlTTL>,
}

/// Anthropic cache control types.
#[derive(Debug, Clone, Copy, PartialEq, Eq, Structural)]
pub enum AnthropicCacheControlType {
    Ephemeral,
}

/// Anthropic cache lifetimes (`5m`, `1h`).
#[derive(Debug, Clone, Copy, PartialEq, Eq, Structural)]
pub enum AnthropicCacheControlTTL {
    FiveMinute,
    OneHour,
}

/// Anthropic `output_config` settings.
#[derive(Debug, PartialEq, Default)]
pub struct AnthropicOutputConfig {
    /// Anthropic `output_config.effort`.
    pub effort: Option<AnthropicOutputEffort>,
    /// Anthropic `output_config.format`.
    pub format: Option<AnthropicOutputFormat>,
}

/// Anthropic `output_config.effort` levels.
#[derive(Debug, Clone, Copy, PartialEq, Eq, Structural)]
pub enum AnthropicOutputEffort {
    Low,
    Medium,
    High,
    Max,
}

/// Anthropic structured-output format options.
#[derive(Debug, PartialEq)]
pub struct AnthropicOutputFormat {
    /// JSON schema describing the requested format.
    pub schema: JsonValue,
    /// Format discriminator.
    pub format_type: AnthropicOutputFormatType,
}

/// Anthropic output format types.
#[derive(Debug, Clone, Copy, PartialEq, Eq, Structural)]
pub enum AnthropicOutputFormatType {
    JsonSchema,
}

/// Anthropic service-tier selection.
#[derive(Debug, Clone, Copy, PartialEq, Eq, Structural)]
pub enum AnthropicServiceTier {
    Auto,
    StandardOnly,
}

/// Anthropic nested `tool_choice` request controls.
#[derive(Debug, Clone, Copy, PartialEq, Eq, Default, Structural)]
pub struct AnthropicToolChoiceOptions {
    /// Anthropic `tool_choice.disable_parallel_tool_use`.
    pub disable_parallel_tool_use: Option<bool>,
}

/// OpenRouter-specific request controls.
#[derive(Debug, PartialEq, Default)]
pub struct OpenRouterOptions {
    pub fallback_models: Vec<String>,
    pub provider_preferences: Option<JsonValue>,
    pub plugins: Vec<OpenRouterPlugin>,
    /// Request metadata, as (key, value) pairs, each key meant to occur once.
    pub metadata: Vec<(String, String)>,
    pub top_k: Option<u32>,
    pub top_logprobs: Option<u8>,
    pub max_tokens: Option<u32>,
    pub stop: Vec<String>,
    pub seed: Option<i64>,
    /// Token biases, as (token, bias) pairs in token order.
    pub logit_bias: Vec<(String, i32)>,
    pub logprobs: Option<bool>,
    /// Frequency penalty, as its JSON number.
    pub frequency_penalty: Option<JsonNumber>,
    /// Presence penalty, as its JSON number.
    pub presence_penalty: Option<JsonNumber>,
    pub user: Option<String>,
    pub session_id: Option<String>,
    pub trace: Option<OpenRouterTrace>,
    pub text: Option<OpenRouterTextOptions>,
    pub modalities: Option<Vec<String>>,
    /// Image generation settings, as (name, value) pairs in name order.
    pub image_config: Option<Vec<(String, OpenRouterImageConfigValue)>>,
}

/// OpenRouter trace metadata.
#[derive(Debug, Clone, PartialEq, Eq, Default)]
pub struct OpenRouterTrace {
    pub trace_id: Option<String>,
    pub trace_name: Option<String>,
    pub span_name: Option<String>,
    pub generation_name: Option<String>,
    pub parent_span_id: Option<String>,
}

/// A value in OpenRouter's image configuration.
#[derive(Debug, PartialEq)]
pub enum OpenRouterImageConfigValue {
    String(String),
    /// A number, as its JSON number.
    Number(JsonNumber),
}

/// OpenRouter plugins, keyed on the wire by `id`.
#[derive(Debug, PartialEq)]
pub enum OpenRouterPlugin {
    AutoRouter(OpenRouterAutoRouterPlugin),
    Moderation(OpenRouterModerationPlugin),
    Web(OpenRouterWebPlugin),
    FileParser(OpenRouterFileParserPlugin),
    ResponseHealing(OpenRouterResponseHealingPlugin),
    ContextCompression(OpenRouterContextCompressionPlugin),
}

#[derive(Debug, Clone, PartialEq, Eq, Default)]
pub struct OpenRouterAutoRouterPlugin {
    pub enabled: Option<bool>,
    pub allowed_models: Vec<String>,
}

#[derive(Debug, Clone, Copy, PartialEq, Eq, Default, Structural)]
pub struct OpenRouterModerationPlugin {}

#[derive(Debug, PartialEq, Default)]
pub struct OpenRouterWebPlugin {
    pub enabled: Option<bool>,
    /// Maximum results, as its JSON number.
    pub max_results: Option<JsonNumber>,
    pub search_prompt: Option<String>,
    pub engine: Option<OpenRouterWebPluginEngine>,
    pub include_domains: Vec<String>,
    pub exclude_domains: Vec<String>,
}

#[derive(Debug, Clone, Copy, PartialEq, Eq, Structural)]
pub enum OpenRouterWebPluginEngine {
    Native,
    Exa,
    Firecrawl,
    Parallel,
}

#[derive(Debug, Clone, Copy, PartialEq, Eq, Default, Structural)]
pub struct OpenRouterFileParserPlugin {
    pub enabled: Option<bool>,
    pub pdf: Option<OpenRouterFileParserPdfOptions>,
}

#[derive(Debug, Clone, Copy, PartialEq, Eq, Default, Structural)]
pub struct OpenRouterFileParserPdfOptions {
    pub engine: Option<OpenRouterFileParserPdfEngine>,
}

#[derive(Debug, Clone, Copy, PartialEq, Eq, Structural)]
pub enum OpenRouterFileParserPdfEngine {
    MistralOcr,
    PdfText,
    Native,
}

#[derive(Debug, Clone, Copy, PartialEq, Eq, Default, Structural)]
pub struct OpenRouterResponseHealingPlugin {
    pub enabled: Option<bool>,
}

#[derive(Debug, Clone, Copy, PartialEq, Eq, Default, Structural)]
pub struct OpenRouterContextCompressionPlugin {
    pub enabled: Option<bool>,
    pub engine: Option<OpenRouterContextCompressionEngine>,
}

#[derive(Debug, Clone, Copy, PartialEq, Eq, Structural)]
pub enum OpenRouterContextCompressionEngine {
    MiddleOut,
}

#[derive(Debug, Clone, Copy, PartialEq, Eq, Default, Structural)]
pub struct OpenRouterTextOptions {
    pub verbosity: Option<OpenRouterTextVerbosity>,
}

#[derive(Debug, Clone, Copy, PartialEq, Eq, Structural)]
pub enum OpenRouterTextVerbosity {
    Low,
    Medium,
    High,
    Max,
}

/// Family-scoped native request controls.
#[derive(Debug, PartialEq)]
pub enum FamilyOptions {
    OpenAiCompatible(OpenAiCompatibleOptions),
    Anthropic(AnthropicFamilyOptions),
}

impl FamilyOptions {
    /// The family a variant belongs to.
    pub open spec fn spec_family_id(&self) -> ProviderFamilyId {
        match self {
            FamilyOptions::OpenAiCompatible(_) => ProviderFamilyId::OpenAiCompatible,
            FamilyOptions::Anthropic(_) => ProviderFamilyId::Anthropic,
        }
    }

    /// Returns the family targeted by this option layer.
    pub fn family_id(&self) -> (r: ProviderFamilyId)
        ensures
            r == self.spec_family_id(),
    {
        match self {
            FamilyOptions::OpenAiCompatible(_) => ProviderFamilyId::OpenAiCompatible,
            FamilyOptions::Anthropic(_) => ProviderFamilyId::Anthropic,
        }
    }
}

/// Provider-scoped native request controls.
#[derive(Debug, PartialEq)]
pub enum ProviderOptions {
    OpenAi(OpenAiOptions),
    Anthropic(AnthropicOptions),
    OpenRouter(Box<OpenRouterOptions>),
}

impl ProviderOptions {
    /// The provider a variant belongs to.
    pub open spec fn spec_provider_kind(&self) -> ProviderKind {
        match self {
            ProviderOptions::OpenAi(_) => ProviderKind::OpenAi,
            ProviderOptions::Anthropic(_) => ProviderKind::Anthropic,
            ProviderOptions::OpenRouter(_) => ProviderKind::OpenRouter,
        }
    }

    /// Returns the provider kind targeted by this option layer.
    pub fn provider_kind(&self) -> (r: ProviderKind)
        ensures
            r == self.spec_provider_kind(),
    {
        match self {
            ProviderOptions::OpenAi(_) => ProviderKind::OpenAi,
            ProviderOptions::Anthropic(_) => ProviderKind::Anthropic,
            ProviderOptions::OpenRouter(_) => ProviderKind::OpenRouter,
        }
    }
}

/// Layered family-scoped and provider-scoped native request controls.
#[derive(Debug, PartialEq, Default)]
pub struct NativeOptions {
    /// Family-scoped controls consumed by the provider family codec.
    pub family: Option<FamilyOptions>,
    /// Provider-scoped controls consumed by the provider refinement layer.
    pub provider: Option<ProviderOptions>,
}

} // verus!
