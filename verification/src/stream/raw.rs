//! Provider-native raw stream frames.
use vstd::prelude::*;

use crate::json::{parse_json_text, spec_parse_json, JsonValue, SpecJson};
use crate::text::{owned, str_equal};
use crate::types::identity::ProviderKind;

verus! {

/// Transport envelope for a raw streaming event before it is normalized.
#[derive(Debug, Clone, PartialEq, Eq)]
pub enum RawStreamTransport {
    /// A Server-Sent Events frame.
    Sse {
        /// Optional SSE event name.
        event: Option<String>,
        /// Optional SSE event id.
        id: Option<String>,
        /// Optional SSE retry value in milliseconds.
        retry: Option<u64>,
    },
}

/// Classified payload body of a raw streaming frame.
#[derive(Debug, PartialEq)]
pub enum RawStreamPayload {
    /// JSON payload parsed from the raw frame body.
    Json { value: JsonValue },
    /// Non-JSON text payload.
    Text { text: String },
    /// Stream terminator such as the SSE `[DONE]` sentinel.
    Done,
    /// An SSE comment line.
    Comment { text: String },
    /// Empty payload body.
    Empty,
}

/// Model of [`RawStreamPayload`].
pub enum SpecRawStreamPayload {
    Json { value: SpecJson },
    Text { text: Seq<char> },
    Done,
    Comment { text: Seq<char> },
    Empty,
}

impl View for RawStreamPayload {
    type V = SpecRawStreamPayload;

    open spec fn view(&self) -> SpecRawStreamPayload {
        match self {
            RawStreamPayload::Json { value } => SpecRawStreamPayload::Json { value: value@ },
            RawStreamPayload::Text { text } => SpecRawStreamPayload::Text { text: text@ },
            RawStreamPayload::Done => SpecRawStreamPayload::Done,
            RawStreamPayload::Comment { text } => SpecRawStreamPayload::Comment { text: text@ },
            RawStreamPayload::Empty => SpecRawStreamPayload::Empty,
        }
    }
}

/// View of an optional owned string.
pub open spec fn ostr(o: Option<String>) -> Option<Seq<char>> {
    match o {
        Some(s) => Some(s@),
        None => None,
    }
}

/// How an SSE `data` field is classified: the `[DONE]` sentinel, an empty body,
/// a JSON document, or else plain text.
pub open spec fn spec_classify_sse_payload(data: Seq<char>) -> SpecRawStreamPayload {
    if data == "[DONE]"@ {
        SpecRawStreamPayload::Done
    } else if data.len() == 0 {
        SpecRawStreamPayload::Empty
    } else {
        spec_payload_from_parse(data, spec_parse_json(data))
    }
}

/// The payload of a non-empty, non-sentinel body given what parsing it as JSON
/// gave: the document, or the body as text when it is not JSON.
pub open spec fn spec_payload_from_parse(data: Seq<char>, parsed: Result<SpecJson, Seq<char>>) -> SpecRawStreamPayload {
    match parsed {
        Ok(value) => SpecRawStreamPayload::Json { value },
        Err(_) => SpecRawStreamPayload::Text { text: data },
    }
}

/// The model of a JSON parse result.
pub open spec fn parsed_json_view(parsed: Result<JsonValue, String>) -> Result<SpecJson, Seq<char>> {
    match parsed {
        Ok(v) => Ok(v@),
        Err(e) => Err(e@),
    }
}

/// The payload of a body given what parsing it as JSON gave.
pub fn payload_from_parse(data: &str, parsed: Result<JsonValue, String>) -> (r: RawStreamPayload)
    ensures
        r@ == spec_payload_from_parse(data@, parsed_json_view(parsed)),
{
    match parsed {
        Ok(value) => RawStreamPayload::Json { value },
        Err(_) => RawStreamPayload::Text { text: owned(data) },
    }
}

/// Provider-specific stream frame plus minimal transport metadata.
#[derive(Debug, PartialEq)]
pub struct ProviderRawStreamEvent {
    /// Provider that emitted the frame.
    pub provider: ProviderKind,
    /// Monotonic sequence number assigned by the transport.
    pub sequence: u64,
    /// Transport metadata for the frame.
    pub transport: RawStreamTransport,
    /// Classified payload body.
    pub payload: RawStreamPayload,
}

impl ProviderRawStreamEvent {
    /// The SSE event name carried by the frame.
    pub open spec fn spec_event_name(&self) -> Option<Seq<char>> {
        match self.transport {
            RawStreamTransport::Sse { event, .. } => ostr(event),
        }
    }

    /// The JSON document carried by the frame, if its body was JSON.
    pub open spec fn spec_json(&self) -> Option<SpecJson> {
        match self.payload@ {
            SpecRawStreamPayload::Json { value } => Some(value),
            _ => None,
        }
    }

    /// Creates a raw stream event from a single SSE frame and classifies its `data` payload.
    pub fn from_sse(
        provider: ProviderKind,
        sequence: u64,
        event: Option<String>,
        id: Option<String>,
        retry: Option<u64>,
        data: &str,
    ) -> (r: Self)
        ensures
            r.provider == provider,
            r.sequence == sequence,
            r.transport == (RawStreamTransport::Sse { event, id, retry }),
            r.payload@ == spec_classify_sse_payload(data@),
    {
        let payload = Self::classify_sse_payload(data);
        ProviderRawStreamEvent {
            provider,
            sequence,
            transport: RawStreamTransport::Sse { event, id, retry },
            payload,
        }
    }

    /// Creates a raw stream event for an SSE comment line.
    pub fn from_sse_comment(provider: ProviderKind, sequence: u64, text: &str) -> (r: Self)
        ensures
            r.provider == provider,
            r.sequence == sequence,
            r.transport == (RawStreamTransport::Sse { event: None, id: None, retry: None }),
            r.payload@ == (SpecRawStreamPayload::Comment { text: text@ }),
    {
        ProviderRawStreamEvent {
            provider,
            sequence,
            transport: RawStreamTransport::Sse { event: None, id: None, retry: None },
            payload: RawStreamPayload::Comment { text: owned(text) },
        }
    }

    /// Returns the parsed JSON payload when the frame body was valid JSON.
    pub fn json(&self) -> (r: Option<&JsonValue>)
        ensures
            match r {
                Some(v) => self.spec_json() == Some(v@),
                None => self.spec_json() is None,
            },
    {
        match &self.payload {
            RawStreamPayload::Json { value } => Some(value),
            _ => None,
        }
    }

    /// Returns the SSE event name for SSE-backed transports.
    pub fn sse_event_name(&self) -> (r: Option<&str>)
        ensures
            match r {
                Some(s) => self.spec_event_name() == Some(s@),
                None => self.spec_event_name() is None,
            },
    {
        match &self.transport {
            RawStreamTransport::Sse { event, .. } => match event {
                Some(e) => Some(e.as_str()),
                None => None,
            },
        }
    }

    /// Classifies an SSE `data` body.
    fn classify_sse_payload(data: &str) -> (r: RawStreamPayload)
        ensures
            r@ == spec_classify_sse_payload(data@),
    {
        if str_equal(data, "[DONE]") {
            RawStreamPayload::Done
        } else if data.is_empty() {
            RawStreamPayload::Empty
        } else {
            payload_from_parse(data, parse_json_text(data))
        }
    }
}

} // verus!
