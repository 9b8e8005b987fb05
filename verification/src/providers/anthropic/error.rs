//! Anthropic wire-format errors.
use vstd::prelude::*;

use crate::providers::error::opt_string_view;
use crate::text::concat;

verus! {

/// Category of Anthropic-family translation failure.
#[derive(Debug, Clone, Copy, PartialEq, Eq, Structural)]
pub enum AnthropicFamilyErrorKind {
    /// Caller input is invalid for the Anthropic-family wire contract.
    Validation,
    /// Encoding a request payload failed.
    Encode,
    /// Decoding a response payload failed.
    Decode,
    /// The provider returned an upstream application error payload.
    Upstream,
    /// The payload violated an expected protocol contract.
    ProtocolViolation,
    /// The requested feature is unsupported by this wire contract.
    UnsupportedFeature,
}

/// Anthropic-family wire-format error used inside provider translations. The `source`
/// of `Encode` and `Decode` holds the rendered text of an underlying cause.
#[derive(Debug)]
pub enum AnthropicFamilyError {
    /// Caller input could not be represented by the wire contract.
    Validation { message: String },
    /// Building the outbound payload failed.
    Encode { message: String, source: Option<String> },
    /// Parsing or interpreting the inbound payload failed.
    Decode { message: String, source: Option<String> },
    /// The provider reported an application-level error payload.
    Upstream { message: String },
    /// The payload shape or sequencing violated an expected protocol contract.
    ProtocolViolation { message: String },
    /// The requested behavior is not supported by the wire contract.
    UnsupportedFeature { message: String },
}

impl AnthropicFamilyError {
    /// The category of the error.
    pub open spec fn spec_kind(&self) -> AnthropicFamilyErrorKind {
        match self {
            AnthropicFamilyError::Validation { .. } => AnthropicFamilyErrorKind::Validation,
            AnthropicFamilyError::Encode { .. } => AnthropicFamilyErrorKind::Encode,
            AnthropicFamilyError::Decode { .. } => AnthropicFamilyErrorKind::Decode,
            AnthropicFamilyError::Upstream { .. } => AnthropicFamilyErrorKind::Upstream,
            AnthropicFamilyError::ProtocolViolation { .. } => AnthropicFamilyErrorKind::ProtocolViolation,
            AnthropicFamilyError::UnsupportedFeature { .. } => AnthropicFamilyErrorKind::UnsupportedFeature,
        }
    }

    /// The message of the error.
    pub open spec fn spec_message(&self) -> Seq<char> {
        match self {
            AnthropicFamilyError::Validation { message } => message@,
            AnthropicFamilyError::Encode { message, .. } => message@,
            AnthropicFamilyError::Decode { message, .. } => message@,
            AnthropicFamilyError::Upstream { message } => message@,
            AnthropicFamilyError::ProtocolViolation { message } => message@,
            AnthropicFamilyError::UnsupportedFeature { message } => message@,
        }
    }

    /// The text of the preserved cause.
    pub open spec fn spec_source(&self) -> Option<Seq<char>> {
        match self {
            AnthropicFamilyError::Encode { source, .. } => opt_string_view(*source),
            AnthropicFamilyError::Decode { source, .. } => opt_string_view(*source),
            _ => None,
        }
    }

    /// A validation error.
    pub fn validation(message: &str) -> (r: Self)
        ensures
            r.spec_kind() == AnthropicFamilyErrorKind::Validation,
            r.spec_message() == message@,
            r.spec_source() is None,
    {
        AnthropicFamilyError::Validation { message: message.to_string() }
    }

    /// An encode error that keeps the text of its cause.
    pub fn encode_with_source(message: &str, source: String) -> (r: Self)
        ensures
            r.spec_kind() == AnthropicFamilyErrorKind::Encode,
            r.spec_message() == message@,
            r.spec_source() == Some(source@),
    {
        AnthropicFamilyError::Encode { message: message.to_string(), source: Some(source) }
    }

    /// A protocol violation.
    pub fn protocol_violation(message: &str) -> (r: Self)
        ensures
            r.spec_kind() == AnthropicFamilyErrorKind::ProtocolViolation,
            r.spec_message() == message@,
            r.spec_source() is None,
    {
        AnthropicFamilyError::ProtocolViolation { message: message.to_string() }
    }

    /// A decode error without a cause.
    pub fn decode(message: &str) -> (r: Self)
        ensures
            r.spec_kind() == AnthropicFamilyErrorKind::Decode,
            r.spec_message() == message@,
            r.spec_source() is None,
    {
        AnthropicFamilyError::Decode { message: message.to_string(), source: None }
    }

    /// An upstream (provider-reported) error.
    pub fn upstream(message: &str) -> (r: Self)
        ensures
            r.spec_kind() == AnthropicFamilyErrorKind::Upstream,
            r.spec_message() == message@,
            r.spec_source() is None,
    {
        AnthropicFamilyError::Upstream { message: message.to_string() }
    }

    /// An unsupported-feature error.
    pub fn unsupported_feature(message: &str) -> (r: Self)
        ensures
            r.spec_kind() == AnthropicFamilyErrorKind::UnsupportedFeature,
            r.spec_message() == message@,
            r.spec_source() is None,
    {
        AnthropicFamilyError::UnsupportedFeature { message: message.to_string() }
    }

    /// The category of the error.
    pub fn kind(&self) -> (r: AnthropicFamilyErrorKind)
        ensures
            r == self.spec_kind(),
    {
        match self {
            AnthropicFamilyError::Validation { .. } => AnthropicFamilyErrorKind::Validation,
            AnthropicFamilyError::Encode { .. } => AnthropicFamilyErrorKind::Encode,
            AnthropicFamilyError::Decode { .. } => AnthropicFamilyErrorKind::Decode,
            AnthropicFamilyError::Upstream { .. } => AnthropicFamilyErrorKind::Upstream,
            AnthropicFamilyError::ProtocolViolation { .. } => AnthropicFamilyErrorKind::ProtocolViolation,
            AnthropicFamilyError::UnsupportedFeature { .. } => AnthropicFamilyErrorKind::UnsupportedFeature,
        }
    }

    /// The message of the error.
    pub fn message(&self) -> (r: &str)
        ensures
            r@ == self.spec_message(),
    {
        match self {
            AnthropicFamilyError::Validation { message } => message.as_str(),
            AnthropicFamilyError::Encode { message, .. } => message.as_str(),
            AnthropicFamilyError::Decode { message, .. } => message.as_str(),
            AnthropicFamilyError::Upstream { message } => message.as_str(),
            AnthropicFamilyError::ProtocolViolation { message } => message.as_str(),
            AnthropicFamilyError::UnsupportedFeature { message } => message.as_str(),
        }
    }

    /// The prefix the error's one-line rendering puts before its message.
    pub open spec fn spec_display_prefix(&self) -> Seq<char> {
        match self {
            AnthropicFamilyError::Validation { .. } => "validation error: "@,
            AnthropicFamilyError::Encode { .. } => "encode error: "@,
            AnthropicFamilyError::Decode { .. } => "decode error: "@,
            AnthropicFamilyError::Upstream { .. } => "upstream error: "@,
            AnthropicFamilyError::ProtocolViolation { .. } => "protocol violation: "@,
            AnthropicFamilyError::UnsupportedFeature { .. } => "unsupported feature: "@,
        }
    }

    /// Renders the error as one line, such as `validation error: <message>`.
    pub fn to_display_string(&self) -> (r: String)
        ensures
            r@ == self.spec_display_prefix() + self.spec_message(),
    {
        let prefix = match self {
            AnthropicFamilyError::Validation { .. } => "validation error: ",
            AnthropicFamilyError::Encode { .. } => "encode error: ",
            AnthropicFamilyError::Decode { .. } => "decode error: ",
            AnthropicFamilyError::Upstream { .. } => "upstream error: ",
            AnthropicFamilyError::ProtocolViolation { .. } => "protocol violation: ",
            AnthropicFamilyError::UnsupportedFeature { .. } => "unsupported feature: ",
        };
        concat(prefix, self.message())
    }

    /// The text of the preserved cause, if any.
    pub fn source(&self) -> (r: Option<&str>)
        ensures
            match r {
                Some(s) => self.spec_source() == Some(s@),
                None => self.spec_source() is None,
            },
    {
        match self {
            AnthropicFamilyError::Encode { source, .. } => match source {
                Some(s) => Some(s.as_str()),
                None => None,
            },
            AnthropicFamilyError::Decode { source, .. } => match source {
                Some(s) => Some(s.as_str()),
                None => None,
            },
            _ => None,
        }
    }
}

} // verus!
