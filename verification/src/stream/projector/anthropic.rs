//! What an Anthropic Messages stream frame projects to.
use vstd::prelude::*;

use crate::json::SpecJson;
use crate::stream::canonical::{SpecCanonicalStreamEvent, SpecItemEnd, SpecItemStart};
use crate::stream::projector::{
    opt_str_at, spec_anthropic_stream_usage, spec_error_message, spec_parse_finish_reason,
    SpecBlockState, SpecProjectorState,
};
use crate::types::message::MessageRole;
use crate::types::response::FinishReason;

verus! {

/// State and events for opening the content block `block` at `index`: a text
/// block or a tool-use block (named by its `name`, empty when absent) opens;
/// blocks of other types are ignored.
pub open spec fn spec_anthropic_open_block(st: SpecProjectorState, index: u32, block: SpecJson) -> (
    SpecProjectorState,
    Seq<SpecCanonicalStreamEvent>,
) {
    let kind = block.str_at("type"@);
    if kind == Some("text"@) {
        (
            SpecProjectorState {
                anthropic_blocks: st.anthropic_blocks.insert(index, SpecBlockState::Text { item_id: None }),
                ..st
            },
            seq![
                SpecCanonicalStreamEvent::OutputItemStarted {
                    output_index: index,
                    item: SpecItemStart::Message { item_id: None, role: MessageRole::Assistant },
                },
            ],
        )
    } else if kind == Some("tool_use"@) {
        let name = match block.str_at("name"@) {
            Some(n) => n,
            None => Seq::empty(),
        };
        let tool_call_id = block.str_at("id"@);
        (
            SpecProjectorState {
                anthropic_blocks: st.anthropic_blocks.insert(
                    index,
                    SpecBlockState::ToolCall { item_id: None, tool_call_id, name, arguments: Seq::empty() },
                ),
                ..st
            },
            seq![
                SpecCanonicalStreamEvent::OutputItemStarted {
                    output_index: index,
                    item: SpecItemStart::ToolCall { item_id: None, tool_call_id, name },
                },
            ],
        )
    } else {
        (st, seq![])
    }
}

/// State and events for `content_block_start`: a text or tool-use block opens at its index.
pub open spec fn spec_anthropic_block_start(st: SpecProjectorState, v: SpecJson) -> (
    SpecProjectorState,
    Seq<SpecCanonicalStreamEvent>,
) {
    match (v.u32_at("index"@), v.get("content_block"@)) {
        (Some(index), Some(block)) => spec_anthropic_open_block(st, index, block),
        _ => (st, seq![]),
    }
}

/// State and events for a response start: reported once per stream.
pub open spec fn spec_start_response(
    st: SpecProjectorState,
    model: Option<Seq<char>>,
    response_id: Option<Seq<char>>,
) -> (SpecProjectorState, Seq<SpecCanonicalStreamEvent>) {
    if !st.response_started {
        (
            SpecProjectorState { response_started: true, ..st },
            seq![SpecCanonicalStreamEvent::ResponseStarted { model, response_id }],
        )
    } else {
        (st, seq![])
    }
}

/// State and events for `message_stop`: the stream completes once, with the
/// recorded stop reason (or `Other`).
pub open spec fn spec_anthropic_message_stop(st: SpecProjectorState) -> (
    SpecProjectorState,
    Seq<SpecCanonicalStreamEvent>,
) {
    if !st.completed {
        (
            SpecProjectorState { completed: true, ..st },
            seq![
                SpecCanonicalStreamEvent::Completed {
                    finish_reason: match st.anthropic_stop_reason {
                        Some(r) => r,
                        None => FinishReason::Other,
                    },
                },
            ],
        )
    } else {
        (st, seq![])
    }
}

/// State and events for an error frame: a message fails the stream; a frame
/// without one is ignored.
pub open spec fn spec_stream_failure(st: SpecProjectorState, v: SpecJson) -> (
    SpecProjectorState,
    Seq<SpecCanonicalStreamEvent>,
) {
    match spec_error_message(v) {
        Some(message) => (
            SpecProjectorState { completed: true, ..st },
            seq![SpecCanonicalStreamEvent::Failed { message }],
        ),
        None => (st, seq![]),
    }
}

/// State and events for `content_block_delta`: text deltas pass through; JSON
/// deltas are appended to the open tool-use block at that index and passed through.
pub open spec fn spec_anthropic_block_delta(st: SpecProjectorState, v: SpecJson) -> (
    SpecProjectorState,
    Seq<SpecCanonicalStreamEvent>,
) {
    match (v.u32_at("index"@), v.get("delta"@)) {
        (Some(index), Some(delta)) => {
            let kind = delta.str_at("type"@);
            if kind == Some("text_delta"@) {
                match delta.str_at("text"@) {
                    Some(text) => (
                        st,
                        seq![
                            SpecCanonicalStreamEvent::TextDelta {
                                output_index: index,
                                content_index: 0,
                                item_id: if st.anthropic_blocks.contains_key(index) {
                                    st.anthropic_blocks[index].item_id()
                                } else {
                                    None
                                },
                                delta: text,
                            },
                        ],
                    ),
                    None => (st, seq![]),
                }
            } else if kind == Some("input_json_delta"@) {
                match delta.str_at("partial_json"@) {
                    Some(partial) => if st.anthropic_blocks.contains_key(index) {
                        match st.anthropic_blocks[index] {
                            SpecBlockState::ToolCall { item_id, tool_call_id, name, arguments } => (
                                SpecProjectorState {
                                    anthropic_blocks: st.anthropic_blocks.insert(
                                        index,
                                        SpecBlockState::ToolCall {
                                            item_id,
                                            tool_call_id,
                                            name,
                                            arguments: arguments + partial,
                                        },
                                    ),
                                    ..st
                                },
                                seq![
                                    SpecCanonicalStreamEvent::ToolCallArgumentsDelta {
                                        output_index: index,
                                        tool_call_index: index,
                                        item_id,
                                        tool_call_id,
                                        tool_name: Some(name),
                                        delta: partial,
                                    },
                                ],
                            ),
                            _ => (st, seq![]),
                        }
                    } else {
                        (st, seq![])
                    },
                    None => (st, seq![]),
                }
            } else {
                (st, seq![])
            }
        },
        _ => (st, seq![]),
    }
}

/// The completion descriptor of a block that stops.
pub open spec fn spec_block_end(b: SpecBlockState) -> SpecItemEnd {
    match b {
        SpecBlockState::Text { item_id } => SpecItemEnd::Message { item_id },
        SpecBlockState::ToolCall { item_id, tool_call_id, name, arguments } => SpecItemEnd::ToolCall {
            item_id,
            tool_call_id,
            name,
            arguments_json_text: arguments,
        },
    }
}

/// State and events for `content_block_stop`: the open block at the index closes.
pub open spec fn spec_anthropic_block_stop(st: SpecProjectorState, v: SpecJson) -> (
    SpecProjectorState,
    Seq<SpecCanonicalStreamEvent>,
) {
    match v.u32_at("index"@) {
        Some(index) => if st.anthropic_blocks.contains_key(index) {
            (
                SpecProjectorState { anthropic_blocks: st.anthropic_blocks.remove(index), ..st },
                seq![
                    SpecCanonicalStreamEvent::OutputItemCompleted {
                        output_index: index,
                        item: spec_block_end(st.anthropic_blocks[index]),
                    },
                ],
            )
        } else {
            (st, seq![])
        },
        None => (st, seq![]),
    }
}

/// State and events for `message_delta`: a usage update, and the stop reason recorded.
pub open spec fn spec_anthropic_message_delta(st: SpecProjectorState, v: SpecJson) -> (
    SpecProjectorState,
    Seq<SpecCanonicalStreamEvent>,
) {
    let usage_events = match v.get("usage"@) {
        Some(u) => seq![SpecCanonicalStreamEvent::UsageUpdated { usage: spec_anthropic_stream_usage(u) }],
        None => seq![],
    };
    match v.get("delta"@) {
        Some(d) => (
            SpecProjectorState {
                anthropic_stop_reason: spec_parse_finish_reason(d.str_at("stop_reason"@)),
                ..st
            },
            usage_events,
        ),
        None => (st, usage_events),
    }
}

/// State and events that an Anthropic Messages frame produces, keyed by its SSE event name.
pub open spec fn spec_anthropic_step(
    st: SpecProjectorState,
    name: Option<Seq<char>>,
    body: Option<SpecJson>,
) -> (SpecProjectorState, Seq<SpecCanonicalStreamEvent>) {
    match body {
        None => (st, seq![]),
        Some(v) => if name == Some("message_start"@) {
            spec_start_response(
                st,
                opt_str_at(v.get("message"@), "model"@),
                opt_str_at(v.get("message"@), "id"@),
            )
        } else if name == Some("content_block_start"@) {
            spec_anthropic_block_start(st, v)
        } else if name == Some("content_block_delta"@) {
            spec_anthropic_block_delta(st, v)
        } else if name == Some("content_block_stop"@) {
            spec_anthropic_block_stop(st, v)
        } else if name == Some("message_delta"@) {
            spec_anthropic_message_delta(st, v)
        } else if name == Some("message_stop"@) {
            spec_anthropic_message_stop(st)
        } else if name == Some("error"@) {
            spec_stream_failure(st, v)
        } else {
            (st, seq![])
        },
    }
}

} // verus!
