//! Provider and transport configuration shared with HTTP adapters.
use vstd::prelude::*;

verus! {

/// Transport-level metadata supplied alongside a request.
#[derive(Debug, Clone, PartialEq, Eq)]
pub struct AdapterContext {
    /// Adapter and transport overrides, as (key, value) pairs, each key meant to occur once.
    pub metadata: Vec<(String, String)>,
    /// Optional credentials used by the transport.
    pub auth_token: Option<AuthCredentials>,
}

/// Authentication material supplied by the caller.
#[derive(Debug, Clone, PartialEq, Eq)]
pub enum AuthCredentials {
    /// Raw token value interpreted according to [`AuthStyle`].
    Token(String),
}

/// Strategy the HTTP transport uses to place credentials on outbound requests.
#[derive(Debug, Clone, PartialEq, Eq)]
pub enum AuthStyle {
    /// Send the token as an `Authorization: Bearer ...` header.
    Bearer,
    /// Send the token in the named provider-specific header.
    ApiKeyHeader(String),
    /// Base64-encode the token and send it as HTTP basic auth credentials.
    Basic,
    /// Do not attach authentication headers.
    Disabled,
}

/// Provider platform configuration used by the transport layer.
#[derive(Debug, Clone, PartialEq, Eq)]
pub struct PlatformConfig {
    /// Wire protocol expected by the provider adapter and transport.
    pub protocol: ProtocolKind,
    /// Base URL for the target API.
    pub base_url: String,
    /// Authentication strategy for outbound requests.
    pub auth_style: AuthStyle,
    /// Header name from which the transport reads request ids.
    pub request_id_header: String,
    /// Static headers included on every outbound request, as (name, value) pairs.
    pub default_headers: Vec<(String, String)>,
}

/// Request and response dialect understood by a provider endpoint.
#[derive(Debug, Clone, Copy, PartialEq, Eq, Structural)]
pub enum ProtocolKind {
    /// OpenAI-compatible request and response shapes.
    OpenAI,
    /// Anthropic Messages API request and response shapes.
    Anthropic,
}

} // verus!
