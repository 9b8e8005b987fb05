//! OpenAI-family wire-format errors.
use vstd::prelude::*;

use crate::providers::error::opt_string_view;
use crate::text::concat;

verus! {

/// Category of OpenAI-family translation failure.
#[derive(Debug, Clone, Copy, PartialEq, Eq, Structural)]
pub enum OpenAiFamilyErrorKind {
    /// Caller input is invalid for the OpenAI-family wire contract.
    Validation,
    /// Encoding a request payload failed.
    Encode,
    /// Decoding a response payload failed.
    Decode,
    /// The provider returned an upstream application error payload.
    Upstream,
    /// The payload violated an expected protocol contract.
    ProtocolViolation,
    /// The requested feature is unsupported by this wire contract.
    UnsupportedFeature,
}

/// OpenAI-family wire-format error used inside provider translations. The `source`
/// of `Encode` and `Decode` holds the rendered text of an underlying cause.
#[derive(Debug)]
pub enum OpenAiFamilyError {
    /// Caller input could not be represented by the wire contract.
    Validation { message: String },
    /// Building the outbound payload failed.
    Encode { message: String, source: Option<String> },
    /// Parsing or interpreting the inbound payload failed.
    Decode { message: String, source: Option<String> },
    /// The provider reported an application-level error payload.
    Upstream { message: String },
    /// The payload shape or sequencing violated an expected protocol contract.
    ProtocolViolation { message: String },
    /// The requested behavior is not supported by the wire contract.
    UnsupportedFeature { message: String },
}

impl OpenAiFamilyError {
    /// The category of the error.
    pub open spec fn spec_kind(&self) -> OpenAiFamilyErrorKind {
        match self {
            OpenAiFamilyError::Validation { .. } => OpenAiFamilyErrorKind::Validation,
            OpenAiFamilyError::Encode { .. } => OpenAiFamilyErrorKind::Encode,
            OpenAiFamilyError::Decode { .. } => OpenAiFamilyErrorKind::Decode,
            OpenAiFamilyError::Upstream { .. } => OpenAiFamilyErrorKind::Upstream,
            OpenAiFamilyError::ProtocolViolation { .. } => OpenAiFamilyErrorKind::ProtocolViolation,
            OpenAiFamilyError::UnsupportedFeature { .. } => OpenAiFamilyErrorKind::UnsupportedFeature,
        }
    }

    /// The message of the error.
    pub open spec fn spec_message(&self) -> Seq<char> {
        match self {
            OpenAiFamilyError::Validation { message } => message@,
            OpenAiFamilyError::Encode { message, .. } => message@,
            OpenAiFamilyError::Decode { message, .. } => message@,
            OpenAiFamilyError::Upstream { message } => message@,
            OpenAiFamilyError::ProtocolViolation { message } => message@,
            OpenAiFamilyError::UnsupportedFeature { message } => message@,
        }
    }

    /// The text of the preserved cause.
    pub open spec fn spec_source(&self) -> Option<Seq<char>> {
        match self {
            OpenAiFamilyError::Encode { source, .. } => opt_string_view(*source),
            OpenAiFamilyError::Decode { source, .. } => opt_string_view(*source),
            _ => None,
        }
    }

    /// A validation error.
    pub fn validation(message: &str) -> (r: Self)
        ensures
            r.spec_kind() == OpenAiFamilyErrorKind::Validation,
            r.spec_message() == message@,
            r.spec_source() is None,
    {
        OpenAiFamilyError::Validation { message: message.to_string() }
    }

    /// An encode error that keeps the text of its cause.
    pub fn encode_with_source(message: &str, source: String) -> (r: Self)
        ensures
            r.spec_kind() == OpenAiFamilyErrorKind::Encode,
            r.spec_message() == message@,
            r.spec_source() == Some(source@),
    {
        OpenAiFamilyError::Encode { message: message.to_string(), source: Some(source) }
    }

    /// A protocol violation.
    pub fn protocol_violation(message: &str) -> (r: Self)
        ensures
            r.spec_kind() == OpenAiFamilyErrorKind::ProtocolViolation,
            r.spec_message() == message@,
            r.spec_source() is None,
    {
        OpenAiFamilyError::ProtocolViolation { message: message.to_string() }
    }

    /// A decode error without a cause.
    pub fn decode(message: &str) -> (r: Self)
        ensures
            r.spec_kind() == OpenAiFamilyErrorKind::Decode,
            r.spec_message() == message@,
            r.spec_source() is None,
    {
        OpenAiFamilyError::Decode { message: message.to_string(), source: None }
    }

    /// An upstream (provider-reported) error.
    pub fn upstream(message: &str) -> (r: Self)
        ensures
            r.spec_kind() == OpenAiFamilyErrorKind::Upstream,
            r.spec_message() == message@,
            r.spec_source() is None,
    {
        OpenAiFamilyError::Upstream { message: message.to_string() }
    }

    /// An unsupported-feature error.
    pub fn unsupported_feature(message: &str) -> (r: Self)
        ensures
            r.spec_kind() == OpenAiFamilyErrorKind::UnsupportedFeature,
            r.spec_message() == message@,
            r.spec_source() is None,
    {
        OpenAiFamilyError::UnsupportedFeature { message: message.to_string() }
    }

    /// The category of the error.
    pub fn kind(&self) -> (r: OpenAiFamilyErrorKind)
        ensures
            r == self.spec_kind(),
    {
        match self {
            OpenAiFamilyError::Validation { .. } => OpenAiFamilyErrorKind::Validation,
            OpenAiFamilyError::Encode { .. } => OpenAiFamilyErrorKind::Encode,
            OpenAiFamilyError::Decode { .. } => OpenAiFamilyErrorKind::Decode,
            OpenAiFamilyError::Upstream { .. } => OpenAiFamilyErrorKind::Upstream,
            OpenAiFamilyError::ProtocolViolation { .. } => OpenAiFamilyErrorKind::ProtocolViolation,
            OpenAiFamilyError::UnsupportedFeature { .. } => OpenAiFamilyErrorKind::UnsupportedFeature,
        }
    }

    /// The message of the error.
    pub fn message(&self) -> (r: &str)
        ensures
            r@ == self.spec_message(),
    {
        match self {
            OpenAiFamilyError::Validation { message } => message.as_str(),
            OpenAiFamilyError::Encode { message, .. } => message.as_str(),
            OpenAiFamilyError::Decode { message, .. } => message.as_str(),
            OpenAiFamilyError::Upstream { message } => message.as_str(),
            OpenAiFamilyError::ProtocolViolation { message } => message.as_str(),
            OpenAiFamilyError::UnsupportedFeature { message } => message.as_str(),
        }
    }

    /// The prefix the error's one-line rendering puts before its message.
    pub open spec fn spec_display_prefix(&self) -> Seq<char> {
        match self {
            OpenAiFamilyError::Validation { .. } => "validation error: "@,
            OpenAiFamilyError::Encode { .. } => "encode error: "@,
            OpenAiFamilyError::Decode { .. } => "decode error: "@,
            OpenAiFamilyError::Upstream { .. } => "upstream error: "@,
            OpenAiFamilyError::ProtocolViolation { .. } => "protocol violation: "@,
            OpenAiFamilyError::UnsupportedFeature { .. } => "unsupported feature: "@,
        }
    }

    /// Renders the error as one line, such as `validation error: <message>`.
    pub fn to_display_string(&self) -> (r: String)
        ensures
            r@ == self.spec_display_prefix() + self.spec_message(),
    {
        let prefix = match self {
            OpenAiFamilyError::Validation { .. } => "validation error: ",
            OpenAiFamilyError::Encode { .. } => "encode error: ",
            OpenAiFamilyError::Decode { .. } => "decode error: ",
            OpenAiFamilyError::Upstream { .. } => "upstream error: ",
            OpenAiFamilyError::ProtocolViolation { .. } => "protocol violation: ",
            OpenAiFamilyError::UnsupportedFeature { .. } => "unsupported feature: ",
        };
        concat(prefix, self.message())
    }

    /// The text of the preserved cause, if any.
    pub fn source(&self) -> (r: Option<&str>)
        ensures
            match r {
                Some(s) => self.spec_source() == Some(s@),
                None => self.spec_source() is None,
            },
    {
        match self {
            OpenAiFamilyError::Encode { source, .. } => match source {
                Some(s) => Some(s.as_str()),
                None => None,
            },
            OpenAiFamilyError::Decode { source, .. } => match source {
                Some(s) => Some(s.as_str()),
                None => None,
            },
            _ => None,
        }
    }
}

} // verus!
