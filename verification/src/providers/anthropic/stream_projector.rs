//! The Anthropic family's stream projector: frames are read as the typed wire
//! events they must be, then projected like the shared Anthropic projection.
use vstd::prelude::*;

use crate::json::{JsonValue, SpecJson};
use crate::providers::anthropic::wire::{
    spec_field_source, spec_opt_string_of, spec_opt_u64_of, spec_opt_value_of,
    AnthropicContentBlockStartEvent, AnthropicMessageDeltaEvent, AnthropicMessageStartEvent,
    AnthropicTextBlock, AnthropicToolUseBlock, AnthropicUsage,
};
use crate::providers::error::AdapterError;
use crate::stream::canonical::{events_view, CanonicalStreamEvent, SpecCanonicalStreamEvent};
use crate::stream::projector::{
    kind_is, parse_finish_reason, spec_anthropic_block_delta, spec_anthropic_block_stop,
    spec_anthropic_message_stop, spec_anthropic_open_block, spec_parse_finish_reason,
    spec_start_response, spec_stream_failure, CanonicalStreamProjector, SpecProjectorState,
};
use crate::stream::raw::ProviderRawStreamEvent;
use crate::text::str_equal;
use crate::types::response::{or_zero, saturating_sum, Usage};

verus! {

/// Canonical usage of an Anthropic usage record: cached input is the
/// saturating sum of cache reads and cache creation; no total is reported.
pub open spec fn spec_usage_from_wire(u: AnthropicUsage) -> Usage {
    Usage {
        input_tokens: u.input_tokens,
        output_tokens: u.output_tokens,
        cached_input_tokens: Some(
            saturating_sum(or_zero(u.cache_read_input_tokens), or_zero(u.cache_creation_input_tokens)),
        ),
        total_tokens: None,
    }
}

/// Canonical usage of a usage document that has the wire shape.
pub open spec fn spec_typed_usage(u: SpecJson) -> Option<Usage> {
    if AnthropicUsage::accepts(u) {
        Some(spec_usage_from_wire(AnthropicUsage::read(u)))
    } else {
        None
    }
}

/// Whether the content block of a `content_block_start` has the wire shape its
/// type asks for (text and tool-use blocks; other types pass).
pub open spec fn block_shape_ok(block: SpecJson) -> bool {
    let kind = block.str_at("type"@);
    if kind == Some("text"@) {
        AnthropicTextBlock::accepts(block)
    } else if kind == Some("tool_use"@) {
        AnthropicToolUseBlock::accepts(block)
    } else {
        true
    }
}

/// State and events that an Anthropic frame produces in the family projector.
/// `message_start`, `content_block_start` and `message_delta` take effect only
/// when the frame has the typed wire shape; the others project as in the
/// shared Anthropic projection.
pub open spec fn spec_family_step(
    st: SpecProjectorState,
    name: Option<Seq<char>>,
    body: Option<SpecJson>,
) -> (SpecProjectorState, Seq<SpecCanonicalStreamEvent>) {
    match body {
        None => (st, seq![]),
        Some(v) => if name == Some("message_start"@) {
            if !st.response_started && AnthropicMessageStartEvent::accepts(v) {
                let m = spec_field_source(v, "message"@, 1)->0;
                spec_start_response(
                    st,
                    spec_opt_string_of(spec_field_source(m, "model"@, 3)),
                    spec_opt_string_of(spec_field_source(m, "id"@, 0)),
                )
            } else {
                (st, seq![])
            }
        } else if name == Some("content_block_start"@) {
            if AnthropicContentBlockStartEvent::accepts(v) {
                let block = spec_field_source(v, "content_block"@, 2)->0;
                let index = spec_opt_u64_of(spec_field_source(v, "index"@, 1))->0 as u32;
                if block_shape_ok(block) {
                    spec_anthropic_open_block(st, index, block)
                } else {
                    (st, seq![])
                }
            } else {
                (st, seq![])
            }
        } else if name == Some("content_block_delta"@) {
            spec_anthropic_block_delta(st, v)
        } else if name == Some("content_block_stop"@) {
            spec_anthropic_block_stop(st, v)
        } else if name == Some("message_delta"@) {
            if AnthropicMessageDeltaEvent::accepts(v) {
                let d = spec_field_source(v, "delta"@, 1)->0;
                let usage_events = match spec_opt_value_of(spec_field_source(v, "usage"@, 2)) {
                    Some(u) => match spec_typed_usage(u) {
                        Some(usage) => seq![SpecCanonicalStreamEvent::UsageUpdated { usage }],
                        None => seq![],
                    },
                    None => seq![],
                };
                (
                    SpecProjectorState {
                        anthropic_stop_reason: spec_parse_finish_reason(
                            spec_opt_string_of(spec_field_source(d, "stop_reason"@, 0)),
                        ),
                        ..st
                    },
                    usage_events,
                )
            } else {
                (st, seq![])
            }
        } else if name == Some("message_stop"@) {
            spec_anthropic_message_stop(st)
        } else if name == Some("error"@) {
            spec_stream_failure(st, v)
        } else {
            (st, seq![])
        },
    }
}

/// Canonical usage of a usage document, when it has the wire shape.
pub fn parse_typed_usage(value: &JsonValue) -> (r: Option<Usage>)
    ensures
        r == spec_typed_usage(value@),
{
    match AnthropicUsage::from_json(value) {
        Some(u) => {
            let read = match u.cache_read_input_tokens {
                Some(x) => x,
                None => 0,
            };
            let creation = match u.cache_creation_input_tokens {
                Some(x) => x,
                None => 0,
            };
            Some(
                Usage {
                    input_tokens: u.input_tokens,
                    output_tokens: u.output_tokens,
                    cached_input_tokens: Some(read.saturating_add(creation)),
                    total_tokens: None,
                },
            )
        },
        None => None,
    }
}

/// Stateful projector of Anthropic Messages stream frames.
#[derive(Debug)]
pub struct AnthropicStreamProjector {
    state: CanonicalStreamProjector,
}

impl View for AnthropicStreamProjector {
    type V = SpecProjectorState;

    closed spec fn view(&self) -> SpecProjectorState {
        self.state@
    }
}

impl AnthropicStreamProjector {
    /// The projector's internal invariant.
    pub closed spec fn wf(&self) -> bool {
        self.state.wf()
    }

    /// A projector in its initial state.
    pub fn new() -> (r: Self)
        ensures
            r@ == SpecProjectorState::initial(),
            r.wf(),
    {
        AnthropicStreamProjector { state: CanonicalStreamProjector::new() }
    }

    /// Projects one raw frame into canonical events. Frames that are not JSON,
    /// or do not have the shape their event name asks for, yield nothing; the
    /// projection never fails.
    pub fn project(&mut self, raw: ProviderRawStreamEvent) -> (r: Result<
        Vec<CanonicalStreamEvent>,
        AdapterError,
    >)
        requires
            old(self).wf(),
        ensures
            final(self).wf(),
            match r {
                Ok(events) => (final(self)@, events_view(events@)) == spec_family_step(
                    old(self)@,
                    raw.spec_event_name(),
                    raw.spec_json(),
                ),
                Err(_) => false,
            },
    {
        let value = match raw.json() {
            Some(v) => v,
            None => {
                let empty: Vec<CanonicalStreamEvent> = Vec::new();
                assert(events_view(empty@) =~= Seq::empty());
                return Ok(empty);
            },
        };
        let name = raw.sse_event_name();
        let events = if kind_is(name, "message_start") {
            if self.state.is_response_started() {
                Vec::new()
            } else {
                match AnthropicMessageStartEvent::from_json(value) {
                    Some(event) => {
                        let ev = self.state.start_response(event.message.model, event.message.id);
                        assert(events_view(ev@) =~= spec_family_step(old(self)@, raw.spec_event_name(), raw.spec_json()).1);
                        ev
                    },
                    None => Vec::new(),
                }
            }
        } else if kind_is(name, "content_block_start") {
            match AnthropicContentBlockStartEvent::from_json(value) {
                Some(event) => {
                    let kind = crate::json::json_str(&event.content_block, "type");
                    let shape_ok = if kind_is(kind, "text") {
                        AnthropicTextBlock::from_json(&event.content_block).is_some()
                    } else if kind_is(kind, "tool_use") {
                        AnthropicToolUseBlock::from_json(&event.content_block).is_some()
                    } else {
                        true
                    };
                    if shape_ok {
                        let ev = self.state.anthropic_open_block(event.index, &event.content_block);
                        assert(events_view(ev@) =~= spec_family_step(old(self)@, raw.spec_event_name(), raw.spec_json()).1);
                        ev
                    } else {
                        Vec::new()
                    }
                },
                None => Vec::new(),
            }
        } else if kind_is(name, "content_block_delta") {
            self.state.anthropic_block_delta(value)
        } else if kind_is(name, "content_block_stop") {
            self.state.anthropic_block_stop(value)
        } else if kind_is(name, "message_delta") {
            match AnthropicMessageDeltaEvent::from_json(value) {
                Some(event) => {
                    let mut events: Vec<CanonicalStreamEvent> = Vec::new();
                    match &event.usage {
                        Some(u) => match parse_typed_usage(u) {
                            Some(usage) => {
                                events.push(CanonicalStreamEvent::UsageUpdated { usage });
                            },
                            None => {},
                        },
                        None => {},
                    }
                    let reason = match &event.delta.stop_reason {
                        Some(s) => parse_finish_reason(Some(s.as_str())),
                        None => parse_finish_reason(None),
                    };
                    self.state.anthropic_set_stop_reason(reason);
                    assert(events_view(events@) =~= spec_family_step(old(self)@, raw.spec_event_name(), raw.spec_json()).1);
                    events
                },
                None => Vec::new(),
            }
        } else if kind_is(name, "message_stop") {
            self.state.anthropic_message_stop()
        } else if kind_is(name, "error") {
            self.state.fail_stream(value)
        } else {
            Vec::new()
        };
        assert(events_view(events@) =~= spec_family_step(
            old(self)@,
            raw.spec_event_name(),
            raw.spec_json(),
        ).1);
        Ok(events)
    }
}

impl Default for AnthropicStreamProjector {
    fn default() -> (r: Self)
        ensures
            r@ == SpecProjectorState::initial(),
            r.wf(),
    {
        AnthropicStreamProjector::new()
    }
}

} // verus!
