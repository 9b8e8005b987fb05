//! Provider identity and descriptor types shared across runtime and adapters.
use vstd::prelude::*;

use crate::text::owned;
use crate::types::platform::{AuthStyle, ProtocolKind};

verus! {

/// Identifier for a shared provider protocol family.
#[derive(Debug, Clone, Copy, PartialEq, Eq, Hash, Structural)]
pub enum ProviderFamilyId {
    /// OpenAI-compatible request/response contracts.
    OpenAiCompatible,
    /// Anthropic message APIs.
    Anthropic,
}

/// Identifier for a concrete adapter and provider refinement strategy.
#[derive(Debug, Clone, Copy, PartialEq, Eq, Hash, Structural)]
pub enum ProviderKind {
    /// OpenAI-hosted APIs.
    OpenAi,
    /// Anthropic-hosted APIs.
    Anthropic,
    /// OpenRouter-hosted APIs.
    OpenRouter,
    /// Generic self-hosted OpenAI-compatible endpoints.
    GenericOpenAiCompatible,
}

/// The provider a raw stream frame came from.
pub type ProviderId = ProviderKind;

/// Identifier for one registered runtime destination instance.
#[derive(Debug, Clone, PartialEq, Eq, PartialOrd, Ord, Hash)]
pub struct ProviderInstanceId(String);

impl View for ProviderInstanceId {
    type V = Seq<char>;

    closed spec fn view(&self) -> Seq<char> {
        self.0@
    }
}

impl ProviderInstanceId {
    /// Creates a new provider instance identifier.
    pub fn new(value: &str) -> (r: Self)
        ensures
            r@ == value@,
    {
        ProviderInstanceId(owned(value))
    }

    /// Wraps an owned string.
    pub fn from_string(value: String) -> (r: Self)
        ensures
            r@ == value@,
    {
        ProviderInstanceId(value)
    }

    /// Conventional default instance id for OpenAI registrations.
    pub fn openai_default() -> (r: Self)
        ensures
            r@ == "openai-default"@,
    {
        Self::new("openai-default")
    }

    /// Conventional default instance id for Anthropic registrations.
    pub fn anthropic_default() -> (r: Self)
        ensures
            r@ == "anthropic-default"@,
    {
        Self::new("anthropic-default")
    }

    /// Conventional default instance id for OpenRouter registrations.
    pub fn openrouter_default() -> (r: Self)
        ensures
            r@ == "openrouter-default"@,
    {
        Self::new("openrouter-default")
    }

    /// Conventional default instance id for generic OpenAI-compatible registrations.
    pub fn generic_openai_compatible_default() -> (r: Self)
        ensures
            r@ == "generic-openai-compatible-default"@,
    {
        Self::new("generic-openai-compatible-default")
    }

    /// Returns the identifier as a string slice.
    pub fn as_str(&self) -> (r: &str)
        ensures
            r@ == self@,
    {
        self.0.as_str()
    }

    /// The identifier as an owned string (what `Display` writes).
    pub fn to_display_string(&self) -> (r: String)
        ensures
            r@ == self@,
    {
        self.0.clone()
    }
}

/// Narrow static capability surface used during route planning.
#[derive(Debug, Clone, Copy, PartialEq, Eq, Structural)]
pub struct ProviderCapabilities {
    /// Whether the provider may be selected for streaming.
    pub supports_streaming: bool,
    /// Whether family-scoped native options are accepted.
    pub supports_family_native_options: bool,
    /// Whether provider-scoped native options are accepted.
    pub supports_provider_native_options: bool,
}

/// Adapter-owned static provider metadata keyed by [`ProviderKind`].
#[derive(Debug, Clone, PartialEq, Eq)]
pub struct ProviderDescriptor {
    /// Concrete provider kind.
    pub kind: ProviderKind,
    /// Shared protocol family.
    pub family: ProviderFamilyId,
    /// Wire protocol expected by the provider adapter and transport.
    pub protocol: ProtocolKind,
    /// Default API base URL for this provider kind.
    pub default_base_url: String,
    /// Default endpoint path for request execution.
    pub endpoint_path: String,
    /// Default auth placement strategy.
    pub default_auth_style: AuthStyle,
    /// Default response header name used for request-id extraction.
    pub default_request_id_header: String,
    /// Default headers attached to every request, as (name, value) pairs.
    pub default_headers: Vec<(String, String)>,
    /// Narrow static capabilities used by route planning.
    pub capabilities: ProviderCapabilities,
}

} // verus!
