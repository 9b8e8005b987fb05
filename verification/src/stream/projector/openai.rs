//! What an OpenAI Responses stream frame projects to.
use vstd::prelude::*;

use crate::json::SpecJson;
use crate::stream::canonical::{SpecCanonicalStreamEvent, SpecItemEnd, SpecItemStart};
use crate::stream::projector::{
    opt_get, opt_str_at, spec_error_message, spec_infer_openai_finish_reason,
    spec_openai_usage, spec_parse_message_role, u32_or_zero, SpecProjectorState,
};
use crate::types::message::MessageRole;

verus! {

/// The event for a `response.output_item.added` frame.
pub open spec fn spec_openai_item_added(v: SpecJson) -> Seq<SpecCanonicalStreamEvent> {
    match (v.u32_at("output_index"@), v.get("item"@)) {
        (Some(output_index), Some(item)) => {
            let kind = item.str_at("type"@);
            if kind == Some("message"@) {
                seq![
                    SpecCanonicalStreamEvent::OutputItemStarted {
                        output_index,
                        item: SpecItemStart::Message {
                            item_id: item.str_at("id"@),
                            role: match spec_parse_message_role(item.str_at("role"@)) {
                                Some(role) => role,
                                None => MessageRole::Assistant,
                            },
                        },
                    },
                ]
            } else if kind == Some("function_call"@) {
                match item.str_at("name"@) {
                    Some(name) => seq![
                        SpecCanonicalStreamEvent::OutputItemStarted {
                            output_index,
                            item: SpecItemStart::ToolCall {
                                item_id: item.str_at("id"@),
                                tool_call_id: item.str_at("call_id"@),
                                name,
                            },
                        },
                    ],
                    None => seq![],
                }
            } else {
                seq![]
            }
        },
        _ => seq![],
    }
}

/// The event for a `response.output_item.done` frame.
pub open spec fn spec_openai_item_done(v: SpecJson) -> Seq<SpecCanonicalStreamEvent> {
    match (v.u32_at("output_index"@), v.get("item"@)) {
        (Some(output_index), Some(item)) => {
            let kind = item.str_at("type"@);
            if kind == Some("message"@) {
                seq![
                    SpecCanonicalStreamEvent::OutputItemCompleted {
                        output_index,
                        item: SpecItemEnd::Message { item_id: item.str_at("id"@) },
                    },
                ]
            } else if kind == Some("function_call"@) {
                match item.str_at("name"@) {
                    Some(name) => seq![
                        SpecCanonicalStreamEvent::OutputItemCompleted {
                            output_index,
                            item: SpecItemEnd::ToolCall {
                                item_id: item.str_at("id"@),
                                tool_call_id: item.str_at("call_id"@),
                                name,
                                arguments_json_text: match item.str_at("arguments"@) {
                                    Some(a) => a,
                                    None => Seq::empty(),
                                },
                            },
                        },
                    ],
                    None => seq![],
                }
            } else {
                seq![]
            }
        },
        _ => seq![],
    }
}

/// State and events for a `response.completed` frame: a failure when the response
/// carries an error message, else the usage update and, once per stream, completion.
pub open spec fn spec_openai_completed(st: SpecProjectorState, v: SpecJson) -> (
    SpecProjectorState,
    Seq<SpecCanonicalStreamEvent>,
) {
    match v.get("response"@) {
        None => (st, seq![]),
        Some(response) => match opt_str_at(response.get("error"@), "message"@) {
            Some(message) => (
                SpecProjectorState { completed: true, ..st },
                seq![SpecCanonicalStreamEvent::Failed { message }],
            ),
            None => {
                let usage_events = match response.get("usage"@) {
                    Some(u) => seq![SpecCanonicalStreamEvent::UsageUpdated { usage: spec_openai_usage(u) }],
                    None => seq![],
                };
                if !st.completed {
                    (
                        SpecProjectorState { completed: true, ..st },
                        usage_events.push(
                            SpecCanonicalStreamEvent::Completed {
                                finish_reason: spec_infer_openai_finish_reason(response),
                            },
                        ),
                    )
                } else {
                    (st, usage_events)
                }
            },
        },
    }
}

/// State and events that an OpenAI Responses frame (its JSON body, if any) produces.
pub open spec fn spec_openai_step(st: SpecProjectorState, body: Option<SpecJson>) -> (
    SpecProjectorState,
    Seq<SpecCanonicalStreamEvent>,
) {
    match body {
        None => (st, seq![]),
        Some(v) => {
            let kind = v.str_at("type"@);
            if kind == Some("response.created"@) || kind == Some("response.in_progress"@) {
                if !st.response_started {
                    (
                        SpecProjectorState { response_started: true, ..st },
                        seq![
                            SpecCanonicalStreamEvent::ResponseStarted {
                                model: opt_str_at(v.get("response"@), "model"@),
                                response_id: opt_str_at(v.get("response"@), "id"@),
                            },
                        ],
                    )
                } else {
                    (st, seq![])
                }
            } else if kind == Some("response.output_item.added"@) {
                (st, spec_openai_item_added(v))
            } else if kind == Some("response.output_text.delta"@) {
                match v.str_at("delta"@) {
                    Some(delta) => (
                        st,
                        seq![
                            SpecCanonicalStreamEvent::TextDelta {
                                output_index: u32_or_zero(v.u32_at("output_index"@)),
                                content_index: u32_or_zero(v.u32_at("content_index"@)),
                                item_id: v.str_at("item_id"@),
                                delta,
                            },
                        ],
                    ),
                    None => (st, seq![]),
                }
            } else if kind == Some("response.function_call_arguments.delta"@) {
                match v.str_at("delta"@) {
                    Some(delta) => (
                        st,
                        seq![
                            SpecCanonicalStreamEvent::ToolCallArgumentsDelta {
                                output_index: u32_or_zero(v.u32_at("output_index"@)),
                                tool_call_index: u32_or_zero(v.u32_at("output_index"@)),
                                item_id: v.str_at("item_id"@),
                                tool_call_id: None,
                                tool_name: None,
                                delta,
                            },
                        ],
                    ),
                    None => (st, seq![]),
                }
            } else if kind == Some("response.output_item.done"@) {
                (st, spec_openai_item_done(v))
            } else if kind == Some("response.completed"@) {
                spec_openai_completed(st, v)
            } else if kind == Some("error"@) {
                match spec_error_message(v) {
                    Some(message) => (
                        SpecProjectorState { completed: true, ..st },
                        seq![SpecCanonicalStreamEvent::Failed { message }],
                    ),
                    None => (st, seq![]),
                }
            } else {
                (st, seq![])
            }
        },
    }
}

} // verus!
