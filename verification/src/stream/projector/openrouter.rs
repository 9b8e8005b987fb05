//! What an OpenRouter chat-completions stream frame projects to.
use vstd::prelude::*;

use crate::json::SpecJson;
use crate::stream::canonical::{SpecCanonicalStreamEvent, SpecItemEnd, SpecItemStart};
use crate::stream::projector::{
    key_before, keys_increasing, opt_get, opt_str_at, spec_openrouter_usage, spec_parse_finish_reason, u32_or_zero,
    SpecMessageItemState, SpecProjectorState, SpecToolCallState, ToolCallKey,
};
use crate::stream::raw::SpecRawStreamPayload;
use crate::types::message::MessageRole;
use crate::types::response::FinishReason;

verus! {

/// Position at which `key` sits, or would be inserted, among increasing entries.
pub open spec fn insert_pos(es: Seq<(ToolCallKey, SpecToolCallState)>, key: ToolCallKey, i: int) -> int
    decreases es.len() - i,
{
    if 0 <= i < es.len() && key_before(es[i].0, key) {
        insert_pos(es, key, i + 1)
    } else {
        i
    }
}

/// The tool call state stored under `key`.
pub open spec fn tc_lookup(es: Seq<(ToolCallKey, SpecToolCallState)>, key: ToolCallKey) -> Option<
    SpecToolCallState,
> {
    let p = insert_pos(es, key, 0);
    if 0 <= p < es.len() && es[p].0 == key {
        Some(es[p].1)
    } else {
        None
    }
}

/// The entries with `key` set to `val`, keeping key order.
pub open spec fn tc_upsert(
    es: Seq<(ToolCallKey, SpecToolCallState)>,
    key: ToolCallKey,
    val: SpecToolCallState,
) -> Seq<(ToolCallKey, SpecToolCallState)> {
    let p = insert_pos(es, key, 0);
    if 0 <= p < es.len() && es[p].0 == key {
        es.update(p, (key, val))
    } else {
        es.insert(p, (key, val))
    }
}

/// A tool call with nothing known yet.
pub open spec fn empty_tool_call() -> SpecToolCallState {
    SpecToolCallState { item_id: None, tool_call_id: None, name: None, arguments: Seq::empty() }
}

/// The completion events for the named tool calls of choice `oi`, in key order.
pub open spec fn tc_completions(es: Seq<(ToolCallKey, SpecToolCallState)>, oi: u32) -> Seq<
    SpecCanonicalStreamEvent,
>
    decreases es.len(),
{
    if es.len() == 0 {
        seq![]
    } else {
        let e = es.last();
        let rest = tc_completions(es.drop_last(), oi);
        if e.0.0 == oi && e.1.name is Some {
            rest.push(
                SpecCanonicalStreamEvent::OutputItemCompleted {
                    output_index: oi,
                    item: SpecItemEnd::ToolCall {
                        item_id: e.1.item_id,
                        tool_call_id: e.1.tool_call_id,
                        name: e.1.name->0,
                        arguments_json_text: e.1.arguments,
                    },
                },
            )
        } else {
            rest
        }
    }
}

/// The tool calls of choices other than `oi`, in key order.
pub open spec fn tc_remaining(es: Seq<(ToolCallKey, SpecToolCallState)>, oi: u32) -> Seq<
    (ToolCallKey, SpecToolCallState),
>
    decreases es.len(),
{
    if es.len() == 0 {
        seq![]
    } else {
        let rest = tc_remaining(es.drop_last(), oi);
        if es.last().0.0 == oi {
            rest
        } else {
            rest.push(es.last())
        }
    }
}

/// Keys ordered at most as `b`.
pub open spec fn key_at_most(a: ToolCallKey, b: ToolCallKey) -> bool {
    a == b || key_before(a, b)
}

/// Where `insert_pos` lands: every entry it passes has a smaller key, the entry at
/// it (if any) does not.
pub proof fn lemma_insert_pos(es: Seq<(ToolCallKey, SpecToolCallState)>, key: ToolCallKey, i: int)
    requires
        0 <= i <= es.len(),
    ensures
        i <= insert_pos(es, key, i) <= es.len(),
        forall|j: int| i <= j < insert_pos(es, key, i) ==> key_before(#[trigger] es[j].0, key),
        insert_pos(es, key, i) < es.len() ==> !key_before(es[insert_pos(es, key, i)].0, key),
    decreases es.len() - i,
{
    if i < es.len() && key_before(es[i].0, key) {
        lemma_insert_pos(es, key, i + 1);
    }
}

/// Setting one key keeps the tool calls in increasing key order.
pub proof fn lemma_upsert_sorted(
    es: Seq<(ToolCallKey, SpecToolCallState)>,
    key: ToolCallKey,
    val: SpecToolCallState,
)
    requires
        keys_increasing(es),
    ensures
        keys_increasing(tc_upsert(es, key, val)),
{
    lemma_insert_pos(es, key, 0);
    let p = insert_pos(es, key, 0);
    let r = tc_upsert(es, key, val);
    if 0 <= p < es.len() && es[p].0 == key {
        assert forall|i: int, j: int| 0 <= i < j < r.len() implies key_before(
            #[trigger] r[i].0,
            #[trigger] r[j].0,
        ) by {
            assert(r[i].0 == es[i].0);
            assert(r[j].0 == es[j].0);
        }
    } else {
        assert forall|i: int, j: int| 0 <= i < j < r.len() implies key_before(
            #[trigger] r[i].0,
            #[trigger] r[j].0,
        ) by {
            if j < p {
                assert(r[i] == es[i] && r[j] == es[j]);
            } else if j == p {
                assert(r[i] == es[i]);
                assert(key_before(es[i].0, key));
            } else if i < p {
                assert(r[i] == es[i] && r[j] == es[j - 1]);
                assert(key_before(es[i].0, es[j - 1].0));
            } else if i == p {
                assert(r[j] == es[j - 1]);
                assert(key_before(key, es[p].0));
                if j - 1 > p {
                    assert(key_before(es[p].0, es[j - 1].0));
                }
            } else {
                assert(r[i] == es[i - 1] && r[j] == es[j - 1]);
                assert(key_before(es[i - 1].0, es[j - 1].0));
            }
        }
    }
}

/// The tool calls left after completing a choice stay in key order, none above
/// the last key of the whole list.
pub proof fn lemma_remaining_sorted(es: Seq<(ToolCallKey, SpecToolCallState)>, oi: u32)
    requires
        keys_increasing(es),
    ensures
        keys_increasing(tc_remaining(es, oi)),
        es.len() > 0 ==> forall|x: int|
            0 <= x < tc_remaining(es, oi).len() ==> key_at_most(
                #[trigger] tc_remaining(es, oi)[x].0,
                es.last().0,
            ),
    decreases es.len(),
{
    if es.len() > 0 {
        let d = es.drop_last();
        assert forall|i: int, j: int| 0 <= i < j < d.len() implies key_before(
            #[trigger] d[i].0,
            #[trigger] d[j].0,
        ) by {
            assert(d[i] == es[i] && d[j] == es[j]);
        }
        lemma_remaining_sorted(d, oi);
        let rest = tc_remaining(d, oi);
        if d.len() > 0 {
            assert(key_before(d.last().0, es.last().0)) by {
                assert(d.last() == es[es.len() - 2]);
            }
        }
        assert forall|x: int| 0 <= x < rest.len() implies key_before(
            #[trigger] rest[x].0,
            es.last().0,
        ) by {
            assert(d.len() > 0);
            assert(key_at_most(rest[x].0, d.last().0));
        }
    }
}

/// The index of a tool call delta: its own `index` when that fits `u32`, else its
/// position in the delta's list (or zero when the position does not fit).
pub open spec fn spec_tool_call_index(tc: SpecJson, pos: int) -> u32 {
    match tc.u32_at("index"@) {
        Some(x) => x,
        None => if 0 <= pos <= u32::MAX {
            pos as u32
        } else {
            0
        },
    }
}

/// State and events for one tool call delta at position `pos` of choice `oi`.
pub open spec fn spec_tool_call_delta(st: SpecProjectorState, oi: u32, tc: SpecJson, pos: int) -> (
    SpecProjectorState,
    Seq<SpecCanonicalStreamEvent>,
) {
    let tci = spec_tool_call_index(tc, pos);
    let key = (oi, tci);
    let prev = match tc_lookup(st.openrouter_tool_calls, key) {
        Some(s) => s,
        None => empty_tool_call(),
    };
    let function = tc.get("function"@);
    let name = if prev.name is None {
        opt_str_at(function, "name"@)
    } else {
        prev.name
    };
    let should_start = prev.name is None && name is Some;
    let tool_call_id = if prev.tool_call_id is None {
        tc.str_at("id"@)
    } else {
        prev.tool_call_id
    };
    let item_id = if prev.item_id is None {
        tc.str_at("id"@)
    } else {
        prev.item_id
    };
    let start_events = if should_start {
        seq![
            SpecCanonicalStreamEvent::OutputItemStarted {
                output_index: oi,
                item: SpecItemStart::ToolCall { item_id, tool_call_id, name: name->0 },
            },
        ]
    } else {
        seq![]
    };
    let (arguments, delta_events) = match opt_str_at(function, "arguments"@) {
        Some(a) => (
            prev.arguments + a,
            seq![
                SpecCanonicalStreamEvent::ToolCallArgumentsDelta {
                    output_index: oi,
                    tool_call_index: tci,
                    item_id,
                    tool_call_id,
                    tool_name: name,
                    delta: a,
                },
            ],
        ),
        None => (prev.arguments, seq![]),
    };
    (
        SpecProjectorState {
            openrouter_tool_calls: tc_upsert(
                st.openrouter_tool_calls,
                key,
                SpecToolCallState { item_id, tool_call_id, name, arguments },
            ),
            ..st
        },
        start_events + delta_events,
    )
}

/// State and events for the tool call deltas `tcs` of choice `oi`, in order.
pub open spec fn spec_tool_call_deltas(st: SpecProjectorState, oi: u32, tcs: Seq<SpecJson>) -> (
    SpecProjectorState,
    Seq<SpecCanonicalStreamEvent>,
)
    decreases tcs.len(),
{
    if tcs.len() == 0 {
        (st, seq![])
    } else {
        let (s1, e1) = spec_tool_call_deltas(st, oi, tcs.drop_last());
        let (s2, e2) = spec_tool_call_delta(s1, oi, tcs.last(), tcs.len() - 1);
        (s2, e1 + e2)
    }
}

/// State and events for the `delta` of choice `oi`: non-empty content opens the
/// choice's message item once and streams as text; tool call deltas follow.
pub open spec fn spec_openrouter_delta(st: SpecProjectorState, oi: u32, delta: SpecJson) -> (
    SpecProjectorState,
    Seq<SpecCanonicalStreamEvent>,
) {
    let (s1, e1) = match delta.str_at("content"@) {
        Some(content) => if content.len() > 0 {
            let (s, opened) = if !st.openrouter_message_items.contains_key(oi) {
                (
                    SpecProjectorState {
                        openrouter_message_items: st.openrouter_message_items.insert(
                            oi,
                            SpecMessageItemState { item_id: None, completed: false },
                        ),
                        ..st
                    },
                    seq![
                        SpecCanonicalStreamEvent::OutputItemStarted {
                            output_index: oi,
                            item: SpecItemStart::Message { item_id: None, role: MessageRole::Assistant },
                        },
                    ],
                )
            } else {
                (st, seq![])
            };
            (
                s,
                opened.push(
                    SpecCanonicalStreamEvent::TextDelta {
                        output_index: oi,
                        content_index: 0,
                        item_id: None,
                        delta: content,
                    },
                ),
            )
        } else {
            (st, seq![])
        },
        None => (st, seq![]),
    };
    match delta.get("tool_calls"@) {
        Some(tc) => match tc.as_array() {
            Some(tcs) => {
                let (s2, e2) = spec_tool_call_deltas(s1, oi, tcs);
                (s2, e1 + e2)
            },
            None => (s1, e1),
        },
        None => (s1, e1),
    }
}

/// State and events for one choice: its delta, then, when it carries a finish
/// reason, the completion of its message item and tool calls and, once per
/// stream, the terminal completion.
pub open spec fn spec_openrouter_choice(st: SpecProjectorState, choice: SpecJson) -> (
    SpecProjectorState,
    Seq<SpecCanonicalStreamEvent>,
) {
    let oi = u32_or_zero(choice.u32_at("index"@));
    let (s1, e1) = match choice.get("delta"@) {
        Some(d) => spec_openrouter_delta(st, oi, d),
        None => (st, seq![]),
    };
    match spec_parse_finish_reason(choice.str_at("finish_reason"@)) {
        None => (s1, e1),
        Some(finish_reason) => {
            let (s2, e2) = if s1.openrouter_message_items.contains_key(oi)
                && !s1.openrouter_message_items[oi].completed {
                let item_id = s1.openrouter_message_items[oi].item_id;
                (
                    SpecProjectorState {
                        openrouter_message_items: s1.openrouter_message_items.insert(
                            oi,
                            SpecMessageItemState { item_id, completed: true },
                        ),
                        ..s1
                    },
                    seq![
                        SpecCanonicalStreamEvent::OutputItemCompleted {
                            output_index: oi,
                            item: SpecItemEnd::Message { item_id },
                        },
                    ],
                )
            } else {
                (s1, seq![])
            };
            let e3 = tc_completions(s2.openrouter_tool_calls, oi);
            let s3 = SpecProjectorState {
                openrouter_tool_calls: tc_remaining(s2.openrouter_tool_calls, oi),
                ..s2
            };
            if !s3.completed {
                (
                    SpecProjectorState { completed: true, ..s3 },
                    e1 + e2 + e3 + seq![SpecCanonicalStreamEvent::Completed { finish_reason }],
                )
            } else {
                (s3, e1 + e2 + e3)
            }
        },
    }
}

/// State and events for a list of choices, in order.
pub open spec fn spec_openrouter_choices(st: SpecProjectorState, choices: Seq<SpecJson>) -> (
    SpecProjectorState,
    Seq<SpecCanonicalStreamEvent>,
)
    decreases choices.len(),
{
    if choices.len() == 0 {
        (st, seq![])
    } else {
        let (s1, e1) = spec_openrouter_choices(st, choices.drop_last());
        let (s2, e2) = spec_openrouter_choice(s1, choices.last());
        (s2, e1 + e2)
    }
}

/// State and events that an OpenRouter frame produces: comments, empty and
/// non-JSON bodies yield nothing; `[DONE]` completes the stream once; a JSON
/// chunk starts the response once, reports usage, then projects its choices.
pub open spec fn spec_openrouter_step(st: SpecProjectorState, payload: SpecRawStreamPayload) -> (
    SpecProjectorState,
    Seq<SpecCanonicalStreamEvent>,
) {
    match payload {
        SpecRawStreamPayload::Done => if st.completed {
            (st, seq![])
        } else {
            (
                SpecProjectorState { completed: true, ..st },
                seq![SpecCanonicalStreamEvent::Completed { finish_reason: FinishReason::Other }],
            )
        },
        SpecRawStreamPayload::Json { value } => {
            let (s1, e1) = if !st.response_started {
                (
                    SpecProjectorState { response_started: true, ..st },
                    seq![
                        SpecCanonicalStreamEvent::ResponseStarted {
                            model: value.str_at("model"@),
                            response_id: value.str_at("id"@),
                        },
                    ],
                )
            } else {
                (st, seq![])
            };
            let e2 = match value.get("usage"@) {
                Some(u) => seq![SpecCanonicalStreamEvent::UsageUpdated { usage: spec_openrouter_usage(u) }],
                None => seq![],
            };
            let choices = match value.get("choices"@) {
                Some(c) => match c.as_array() {
                    Some(a) => a,
                    None => seq![],
                },
                None => seq![],
            };
            let (s3, e3) = spec_openrouter_choices(s1, choices);
            (s3, e1 + e2 + e3)
        },
        _ => (st, seq![]),
    }
}

} // verus!
