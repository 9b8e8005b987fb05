//! Laws of the stream projection: a stream completes at most once and reports
//! its start at most once, whatever frames follow; OpenRouter tool calls
//! accumulate their argument fragments and are completed once.
use vstd::prelude::*;

use crate::json::SpecJson;
use crate::providers::anthropic::stream_projector::spec_family_step;
use crate::stream::canonical::SpecCanonicalStreamEvent;
use crate::stream::projector::anthropic::{
    spec_anthropic_block_delta, spec_anthropic_block_start, spec_anthropic_block_stop, spec_anthropic_open_block, spec_start_response,
    spec_anthropic_message_delta, spec_anthropic_message_stop, spec_anthropic_step,
    spec_stream_failure,
};
use crate::stream::projector::openai::{
    spec_openai_completed, spec_openai_item_added, spec_openai_item_done, spec_openai_step,
};
use crate::stream::projector::openrouter::{
    spec_openrouter_choice, spec_openrouter_choices, spec_openrouter_delta, spec_openrouter_step,
    empty_tool_call, insert_pos, key_at_most, lemma_insert_pos, lemma_upsert_sorted, spec_tool_call_delta,
    spec_tool_call_deltas, spec_tool_call_index, tc_completions, tc_lookup, tc_remaining, tc_upsert,
};
use crate::stream::canonical::SpecItemEnd;
use crate::stream::projector::{
    key_before, keys_increasing, opt_str_at, spec_parse_finish_reason, u32_or_zero, CanonicalStreamProjector,
    SpecProjectorState, SpecToolCallState, ToolCallKey,
};
use crate::stream::raw::{ProviderRawStreamEvent, SpecRawStreamPayload};

verus! {

/// No event of the list completes the stream.
pub open spec fn no_completion(ev: Seq<SpecCanonicalStreamEvent>) -> bool {
    forall|i: int| 0 <= i < ev.len() ==> !(#[trigger] ev[i] is Completed)
}

/// No event of the list reports a response start.
pub open spec fn no_start(ev: Seq<SpecCanonicalStreamEvent>) -> bool {
    forall|i: int| 0 <= i < ev.len() ==> !(#[trigger] ev[i] is ResponseStarted)
}

/// A step after which a completed stream is still completed and completes
/// nothing, and a started stream is still started and starts nothing.
pub open spec fn quiet_step(
    st: SpecProjectorState,
    res: (SpecProjectorState, Seq<SpecCanonicalStreamEvent>),
) -> bool {
    &&& st.completed ==> res.0.completed && no_completion(res.1)
    &&& st.response_started ==> res.0.response_started && no_start(res.1)
}

/// No event of the list fails the stream.
pub open spec fn no_failure(ev: Seq<SpecCanonicalStreamEvent>) -> bool {
    forall|i: int| 0 <= i < ev.len() ==> !(#[trigger] ev[i] is Failed)
}

/// At most one event of the list completes the stream.
pub open spec fn completes_at_most_once(ev: Seq<SpecCanonicalStreamEvent>) -> bool {
    forall|i: int, j: int|
        #![trigger ev[i], ev[j]]
        0 <= i < j < ev.len() && ev[i] is Completed ==> !(ev[j] is Completed)
}

/// At most one event of the list reports a response start.
pub open spec fn starts_at_most_once(ev: Seq<SpecCanonicalStreamEvent>) -> bool {
    forall|i: int, j: int|
        #![trigger ev[i], ev[j]]
        0 <= i < j < ev.len() && ev[i] is ResponseStarted ==> !(ev[j] is ResponseStarted)
}

/// A step, or a run of steps, that keeps the stream's flags honest: it is
/// quiet once completed or started, completes and starts at most once, and
/// whenever it completes, fails or starts the stream it sets the matching flag.
pub open spec fn sound_step(
    st: SpecProjectorState,
    res: (SpecProjectorState, Seq<SpecCanonicalStreamEvent>),
) -> bool {
    &&& quiet_step(st, res)
    &&& completes_at_most_once(res.1)
    &&& starts_at_most_once(res.1)
    &&& (!no_completion(res.1) || !no_failure(res.1)) ==> res.0.completed
    &&& !no_start(res.1) ==> res.0.response_started
}

/// A step that keeps both flags and emits no start, completion or failure.
pub open spec fn neutral_step(
    st: SpecProjectorState,
    res: (SpecProjectorState, Seq<SpecCanonicalStreamEvent>),
) -> bool {
    &&& res.0.completed == st.completed
    &&& res.0.response_started == st.response_started
    &&& no_completion(res.1)
    &&& no_start(res.1)
    &&& no_failure(res.1)
}

proof fn lemma_concat_plain(a: Seq<SpecCanonicalStreamEvent>, b: Seq<SpecCanonicalStreamEvent>)
    ensures
        no_completion(a) && no_completion(b) ==> no_completion(a + b),
        no_start(a) && no_start(b) ==> no_start(a + b),
        no_failure(a) && no_failure(b) ==> no_failure(a + b),
{
    assert forall|i: int| 0 <= i < (a + b).len() implies (a + b)[i] == if i < a.len() {
        a[i]
    } else {
        b[i - a.len()]
    } by {}
    if no_completion(a) && no_completion(b) {
        assert forall|i: int| 0 <= i < (a + b).len() implies !(#[trigger] (a + b)[i] is Completed) by {
            if i < a.len() {
                assert((a + b)[i] == a[i]);
            } else {
                assert((a + b)[i] == b[i - a.len()]);
            }
        }
    }
    if no_start(a) && no_start(b) {
        assert forall|i: int| 0 <= i < (a + b).len() implies !(#[trigger] (a + b)[i] is ResponseStarted) by {
            if i < a.len() {
                assert((a + b)[i] == a[i]);
            } else {
                assert((a + b)[i] == b[i - a.len()]);
            }
        }
    }
    if no_failure(a) && no_failure(b) {
        assert forall|i: int| 0 <= i < (a + b).len() implies !(#[trigger] (a + b)[i] is Failed) by {
            if i < a.len() {
                assert((a + b)[i] == a[i]);
            } else {
                assert((a + b)[i] == b[i - a.len()]);
            }
        }
    }
}

/// A neutral step is sound.
proof fn lemma_neutral_sound(st: SpecProjectorState, res: (SpecProjectorState, Seq<SpecCanonicalStreamEvent>))
    requires
        neutral_step(st, res),
    ensures
        sound_step(st, res),
{
}

/// A step that only completes a stream that had not completed is sound.
proof fn lemma_completion_sound(st: SpecProjectorState, res: (SpecProjectorState, Seq<SpecCanonicalStreamEvent>))
    requires
        !st.completed,
        res.0.completed,
        res.0.response_started == st.response_started,
        res.1.len() == 1,
        res.1[0] is Completed,
    ensures
        sound_step(st, res),
{
    assert(no_start(res.1));
}

/// A step that only fails the stream is sound.
proof fn lemma_failure_sound(st: SpecProjectorState, res: (SpecProjectorState, Seq<SpecCanonicalStreamEvent>))
    requires
        res.0.completed,
        res.0.response_started == st.response_started,
        res.1.len() == 1,
        res.1[0] is Failed,
    ensures
        sound_step(st, res),
{
    assert(no_start(res.1));
    assert(no_completion(res.1));
}

/// A step that only starts a response that had not started is sound.
proof fn lemma_start_sound(st: SpecProjectorState, res: (SpecProjectorState, Seq<SpecCanonicalStreamEvent>))
    requires
        !st.response_started,
        res.0.response_started,
        res.0.completed == st.completed,
        res.1.len() == 1,
        res.1[0] is ResponseStarted,
    ensures
        sound_step(st, res),
{
    assert(no_completion(res.1));
    assert(no_failure(res.1));
}

/// Two sound steps in a row make a sound step.
proof fn lemma_sound_seq(
    s0: SpecProjectorState,
    a: (SpecProjectorState, Seq<SpecCanonicalStreamEvent>),
    b: (SpecProjectorState, Seq<SpecCanonicalStreamEvent>),
)
    requires
        sound_step(s0, a),
        sound_step(a.0, b),
    ensures
        sound_step(s0, (b.0, a.1 + b.1)),
{
    let c = a.1 + b.1;
    let n = a.1.len();
    lemma_concat_plain(a.1, b.1);
    assert forall|i: int| 0 <= i < n implies #[trigger] c[i] == a.1[i] by {}
    assert forall|i: int| n <= i < c.len() implies #[trigger] c[i] == b.1[i - n] by {}
    assert forall|i: int, j: int|
        #![trigger c[i], c[j]]
        0 <= i < j < c.len() && c[i] is Completed implies !(c[j] is Completed) by {
        if j < n {
            assert(c[i] == a.1[i] && c[j] == a.1[j]);
        } else if i >= n {
            assert(c[i] == b.1[i - n] && c[j] == b.1[j - n]);
        } else {
            assert(c[i] == a.1[i]);
            assert(!no_completion(a.1));
            assert(c[j] == b.1[j - n]);
        }
    }
    assert forall|i: int, j: int|
        #![trigger c[i], c[j]]
        0 <= i < j < c.len() && c[i] is ResponseStarted implies !(c[j] is ResponseStarted) by {
        if j < n {
            assert(c[i] == a.1[i] && c[j] == a.1[j]);
        } else if i >= n {
            assert(c[i] == b.1[i - n] && c[j] == b.1[j - n]);
        } else {
            assert(c[i] == a.1[i]);
            assert(!no_start(a.1));
            assert(c[j] == b.1[j - n]);
        }
    }
    if !b.0.completed {
        assert(no_completion(a.1) && no_failure(a.1));
        assert(no_completion(c) && no_failure(c));
    }
    if !b.0.response_started {
        assert(no_start(c));
    }
}

proof fn lemma_tool_call_delta_neutral(st: SpecProjectorState, oi: u32, tc: SpecJson, pos: int)
    ensures
        neutral_step(st, spec_tool_call_delta(st, oi, tc, pos)),
{
    let r = spec_tool_call_delta(st, oi, tc, pos);
    assert(no_completion(r.1));
    assert(no_start(r.1));
    assert(no_failure(r.1));
}

proof fn lemma_tool_call_deltas_neutral(st: SpecProjectorState, oi: u32, tcs: Seq<SpecJson>)
    ensures
        neutral_step(st, spec_tool_call_deltas(st, oi, tcs)),
    decreases tcs.len(),
{
    if tcs.len() > 0 {
        lemma_tool_call_deltas_neutral(st, oi, tcs.drop_last());
        let (s1, e1) = spec_tool_call_deltas(st, oi, tcs.drop_last());
        lemma_tool_call_delta_neutral(s1, oi, tcs.last(), tcs.len() - 1);
        let (s2, e2) = spec_tool_call_delta(s1, oi, tcs.last(), tcs.len() - 1);
        lemma_concat_plain(e1, e2);
    }
}

proof fn lemma_openrouter_delta_neutral(st: SpecProjectorState, oi: u32, delta: SpecJson)
    ensures
        neutral_step(st, spec_openrouter_delta(st, oi, delta)),
{
    let (s1, e1) = match delta.str_at("content"@) {
        Some(content) => if content.len() > 0 {
            let (s, opened) = if !st.openrouter_message_items.contains_key(oi) {
                (
                    SpecProjectorState {
                        openrouter_message_items: st.openrouter_message_items.insert(
                            oi,
                            crate::stream::projector::SpecMessageItemState { item_id: None, completed: false },
                        ),
                        ..st
                    },
                    seq![
                        SpecCanonicalStreamEvent::OutputItemStarted {
                            output_index: oi,
                            item: crate::stream::canonical::SpecItemStart::Message {
                                item_id: None,
                                role: crate::types::message::MessageRole::Assistant,
                            },
                        },
                    ],
                )
            } else {
                (st, seq![])
            };
            (
                s,
                opened.push(
                    SpecCanonicalStreamEvent::TextDelta {
                        output_index: oi,
                        content_index: 0,
                        item_id: None,
                        delta: content,
                    },
                ),
            )
        } else {
            (st, seq![])
        },
        None => (st, seq![]),
    };
    assert(no_completion(e1) && no_start(e1) && no_failure(e1));
    match delta.get("tool_calls"@) {
        Some(tc) => match tc.as_array() {
            Some(tcs) => {
                lemma_tool_call_deltas_neutral(s1, oi, tcs);
                lemma_concat_plain(e1, spec_tool_call_deltas(s1, oi, tcs).1);
            },
            None => {},
        },
        None => {},
    }
}

proof fn lemma_tc_completions_plain(es: Seq<(ToolCallKey, crate::stream::projector::SpecToolCallState)>, oi: u32)
    ensures
        no_completion(tc_completions(es, oi)),
        no_start(tc_completions(es, oi)),
        no_failure(tc_completions(es, oi)),
    decreases es.len(),
{
    if es.len() > 0 {
        lemma_tc_completions_plain(es.drop_last(), oi);
    }
}

proof fn lemma_openrouter_choice_sound(st: SpecProjectorState, choice: SpecJson)
    ensures
        sound_step(st, spec_openrouter_choice(st, choice)),
        spec_openrouter_choice(st, choice).0.response_started == st.response_started,
        no_start(spec_openrouter_choice(st, choice).1),
{
    let oi = crate::stream::projector::u32_or_zero(choice.u32_at("index"@));
    let (s1, e1) = match choice.get("delta"@) {
        Some(d) => spec_openrouter_delta(st, oi, d),
        None => (st, seq![]),
    };
    match choice.get("delta"@) {
        Some(d) => lemma_openrouter_delta_neutral(st, oi, d),
        None => {},
    }
    assert(neutral_step(st, (s1, e1)));
    lemma_neutral_sound(st, (s1, e1));
    match crate::stream::projector::spec_parse_finish_reason(choice.str_at("finish_reason"@)) {
        None => {},
        Some(finish_reason) => {
            let (s2, e2) = if s1.openrouter_message_items.contains_key(oi)
                && !s1.openrouter_message_items[oi].completed {
                let item_id = s1.openrouter_message_items[oi].item_id;
                (
                    SpecProjectorState {
                        openrouter_message_items: s1.openrouter_message_items.insert(
                            oi,
                            crate::stream::projector::SpecMessageItemState { item_id, completed: true },
                        ),
                        ..s1
                    },
                    seq![
                        SpecCanonicalStreamEvent::OutputItemCompleted {
                            output_index: oi,
                            item: crate::stream::canonical::SpecItemEnd::Message { item_id },
                        },
                    ],
                )
            } else {
                (s1, seq![])
            };
            assert(no_completion(e2) && no_start(e2) && no_failure(e2));
            lemma_neutral_sound(s1, (s2, e2));
            lemma_sound_seq(st, (s1, e1), (s2, e2));
            let e3 = tc_completions(s2.openrouter_tool_calls, oi);
            let s3 = SpecProjectorState { openrouter_tool_calls: tc_remaining(s2.openrouter_tool_calls, oi), ..s2 };
            lemma_tc_completions_plain(s2.openrouter_tool_calls, oi);
            lemma_neutral_sound(s2, (s3, e3));
            lemma_sound_seq(st, (s2, e1 + e2), (s3, e3));
            lemma_concat_plain(e1, e2);
            lemma_concat_plain(e1 + e2, e3);
            if !s3.completed {
                let tail = seq![SpecCanonicalStreamEvent::Completed { finish_reason }];
                lemma_completion_sound(s3, (SpecProjectorState { completed: true, ..s3 }, tail));
                lemma_sound_seq(st, (s3, e1 + e2 + e3), (SpecProjectorState { completed: true, ..s3 }, tail));
                assert(no_start(tail));
                lemma_concat_plain(e1 + e2 + e3, tail);
            }
        },
    }
}

proof fn lemma_openrouter_choices_sound(st: SpecProjectorState, choices: Seq<SpecJson>)
    ensures
        sound_step(st, spec_openrouter_choices(st, choices)),
        spec_openrouter_choices(st, choices).0.response_started == st.response_started,
        no_start(spec_openrouter_choices(st, choices).1),
    decreases choices.len(),
{
    if choices.len() > 0 {
        lemma_openrouter_choices_sound(st, choices.drop_last());
        let (s1, e1) = spec_openrouter_choices(st, choices.drop_last());
        lemma_openrouter_choice_sound(s1, choices.last());
        let (s2, e2) = spec_openrouter_choice(s1, choices.last());
        lemma_sound_seq(st, (s1, e1), (s2, e2));
        lemma_concat_plain(e1, e2);
    } else {
        lemma_neutral_sound(st, (st, seq![]));
    }
}

proof fn lemma_openrouter_step_sound(st: SpecProjectorState, payload: SpecRawStreamPayload)
    ensures
        sound_step(st, spec_openrouter_step(st, payload)),
{
    match payload {
        SpecRawStreamPayload::Done => {
            if !st.completed {
                lemma_completion_sound(st, spec_openrouter_step(st, payload));
            } else {
                lemma_neutral_sound(st, (st, seq![]));
            }
        },
        SpecRawStreamPayload::Json { value } => {
            let (s1, e1) = if !st.response_started {
                (
                    SpecProjectorState { response_started: true, ..st },
                    seq![
                        SpecCanonicalStreamEvent::ResponseStarted {
                            model: value.str_at("model"@),
                            response_id: value.str_at("id"@),
                        },
                    ],
                )
            } else {
                (st, seq![])
            };
            if !st.response_started {
                lemma_start_sound(st, (s1, e1));
            } else {
                lemma_neutral_sound(st, (s1, e1));
            }
            let e2 = match value.get("usage"@) {
                Some(u) => seq![
                    SpecCanonicalStreamEvent::UsageUpdated {
                        usage: crate::stream::projector::spec_openrouter_usage(u),
                    },
                ],
                None => seq![],
            };
            assert(no_completion(e2) && no_start(e2) && no_failure(e2));
            lemma_neutral_sound(s1, (s1, e2));
            lemma_sound_seq(st, (s1, e1), (s1, e2));
            let choices = match value.get("choices"@) {
                Some(c) => match c.as_array() {
                    Some(a) => a,
                    None => seq![],
                },
                None => seq![],
            };
            lemma_openrouter_choices_sound(s1, choices);
            let (s3, e3) = spec_openrouter_choices(s1, choices);
            lemma_sound_seq(st, (s1, e1 + e2), (s3, e3));
        },
        _ => {
            lemma_neutral_sound(st, (st, seq![]));
        },
    }
}

proof fn lemma_openai_step_sound(st: SpecProjectorState, body: Option<SpecJson>)
    ensures
        sound_step(st, spec_openai_step(st, body)),
{
    match body {
        Some(v) => {
            let r = spec_openai_step(st, body);
            let kind = v.str_at("type"@);
            if kind == Some("response.created"@) || kind == Some("response.in_progress"@) {
                if !st.response_started {
                    lemma_start_sound(st, r);
                } else {
                    lemma_neutral_sound(st, r);
                }
            } else if kind == Some("response.output_item.added"@) {
                assert(neutral_step(st, r));
            } else if kind == Some("response.output_text.delta"@) {
                assert(neutral_step(st, r));
            } else if kind == Some("response.function_call_arguments.delta"@) {
                assert(neutral_step(st, r));
            } else if kind == Some("response.output_item.done"@) {
                assert(neutral_step(st, r));
            } else if kind == Some("response.completed"@) {
                match v.get("response"@) {
                    Some(response) => match crate::stream::projector::opt_str_at(response.get("error"@), "message"@) {
                        Some(_) => lemma_failure_sound(st, r),
                        None => {
                            let usage_events = match response.get("usage"@) {
                                Some(u) => seq![
                                    SpecCanonicalStreamEvent::UsageUpdated {
                                        usage: crate::stream::projector::spec_openai_usage(u),
                                    },
                                ],
                                None => seq![],
                            };
                            assert(neutral_step(st, (st, usage_events)));
                            lemma_neutral_sound(st, (st, usage_events));
                            if !st.completed {
                                let done = SpecProjectorState { completed: true, ..st };
                                let tail = seq![
                                    SpecCanonicalStreamEvent::Completed {
                                        finish_reason: crate::stream::projector::spec_infer_openai_finish_reason(response),
                                    },
                                ];
                                lemma_completion_sound(st, (done, tail));
                                lemma_sound_seq(st, (st, usage_events), (done, tail));
                                assert(usage_events.push(tail[0]) =~= usage_events + tail);
                            }
                        },
                    },
                    None => lemma_neutral_sound(st, r),
                }
            } else if kind == Some("error"@) {
                match crate::stream::projector::spec_error_message(v) {
                    Some(_) => lemma_failure_sound(st, r),
                    None => lemma_neutral_sound(st, r),
                }
            } else {
                lemma_neutral_sound(st, r);
            }
        },
        None => lemma_neutral_sound(st, (st, seq![])),
    }
}

/// What the Anthropic sub-steps shared by both projectors yield is sound.
proof fn lemma_anthropic_parts_sound(st: SpecProjectorState, v: SpecJson)
    ensures
        neutral_step(st, spec_anthropic_block_delta(st, v)),
        neutral_step(st, spec_anthropic_block_stop(st, v)),
        neutral_step(st, spec_anthropic_message_delta(st, v)),
        sound_step(st, spec_anthropic_block_delta(st, v)),
        sound_step(st, spec_anthropic_block_stop(st, v)),
        sound_step(st, spec_anthropic_message_delta(st, v)),
        sound_step(st, spec_anthropic_message_stop(st)),
        sound_step(st, spec_stream_failure(st, v)),
        forall|index: u32, block: SpecJson| #[trigger]
            neutral_step(st, spec_anthropic_open_block(st, index, block)),
        forall|model: Option<Seq<char>>, id: Option<Seq<char>>|
            #[trigger] sound_step(st, spec_start_response(st, model, id)),
{
    assert(neutral_step(st, spec_anthropic_block_delta(st, v)));
    assert(neutral_step(st, spec_anthropic_block_stop(st, v)));
    assert(neutral_step(st, spec_anthropic_message_delta(st, v)));
    lemma_neutral_sound(st, spec_anthropic_block_delta(st, v));
    lemma_neutral_sound(st, spec_anthropic_block_stop(st, v));
    lemma_neutral_sound(st, spec_anthropic_message_delta(st, v));
    if !st.completed {
        lemma_completion_sound(st, spec_anthropic_message_stop(st));
    } else {
        lemma_neutral_sound(st, spec_anthropic_message_stop(st));
    }
    match crate::stream::projector::spec_error_message(v) {
        Some(_) => lemma_failure_sound(st, spec_stream_failure(st, v)),
        None => lemma_neutral_sound(st, spec_stream_failure(st, v)),
    }
    assert forall|index: u32, block: SpecJson| #[trigger]
        neutral_step(st, spec_anthropic_open_block(st, index, block)) by {
        let r = spec_anthropic_open_block(st, index, block);
        assert(no_completion(r.1) && no_start(r.1) && no_failure(r.1));
    }
    assert forall|model: Option<Seq<char>>, id: Option<Seq<char>>|
        #[trigger] sound_step(st, spec_start_response(st, model, id)) by {
        if !st.response_started {
            lemma_start_sound(st, spec_start_response(st, model, id));
        } else {
            lemma_neutral_sound(st, spec_start_response(st, model, id));
        }
    }
}

proof fn lemma_anthropic_step_sound(st: SpecProjectorState, name: Option<Seq<char>>, body: Option<SpecJson>)
    ensures
        sound_step(st, spec_anthropic_step(st, name, body)),
{
    match body {
        Some(v) => {
            lemma_anthropic_parts_sound(st, v);
            match (v.u32_at("index"@), v.get("content_block"@)) {
                (Some(index), Some(block)) => {
                    lemma_neutral_sound(st, spec_anthropic_open_block(st, index, block));
                },
                _ => {},
            }
            lemma_neutral_sound(st, (st, seq![]));
        },
        None => lemma_neutral_sound(st, (st, seq![])),
    }
}

proof fn lemma_family_step_sound(st: SpecProjectorState, name: Option<Seq<char>>, body: Option<SpecJson>)
    ensures
        sound_step(st, spec_family_step(st, name, body)),
{
    match body {
        Some(v) => {
            lemma_anthropic_parts_sound(st, v);
            lemma_neutral_sound(st, (st, seq![]));
            let r = spec_family_step(st, name, body);
            if name == Some("message_start"@) {
                if !st.response_started && crate::providers::anthropic::wire::AnthropicMessageStartEvent::accepts(v) {
                    let m = crate::providers::anthropic::wire::spec_field_source(v, "message"@, 1)->0;
                    let model = crate::providers::anthropic::wire::spec_opt_string_of(
                        crate::providers::anthropic::wire::spec_field_source(m, "model"@, 3),
                    );
                    let id = crate::providers::anthropic::wire::spec_opt_string_of(
                        crate::providers::anthropic::wire::spec_field_source(m, "id"@, 0),
                    );
                    assert(sound_step(st, spec_start_response(st, model, id)));
                }
            } else if name == Some("content_block_start"@) {
                if crate::providers::anthropic::wire::AnthropicContentBlockStartEvent::accepts(v) {
                    let block = crate::providers::anthropic::wire::spec_field_source(v, "content_block"@, 2)->0;
                    let index = crate::providers::anthropic::wire::spec_opt_u64_of(
                        crate::providers::anthropic::wire::spec_field_source(v, "index"@, 1),
                    )->0 as u32;
                    assert(neutral_step(st, spec_anthropic_open_block(st, index, block)));
                    lemma_neutral_sound(st, spec_anthropic_open_block(st, index, block));
                }
            } else if name == Some("content_block_delta"@) {
            } else if name == Some("content_block_stop"@) {
            } else if name == Some("message_delta"@) {
                if crate::providers::anthropic::wire::AnthropicMessageDeltaEvent::accepts(v) {
                    let usage_events = match crate::providers::anthropic::wire::spec_opt_value_of(
                        crate::providers::anthropic::wire::spec_field_source(v, "usage"@, 2),
                    ) {
                        Some(u) => match crate::providers::anthropic::stream_projector::spec_typed_usage(u) {
                            Some(usage) => seq![SpecCanonicalStreamEvent::UsageUpdated { usage }],
                            None => seq![],
                        },
                        None => seq![],
                    };
                    assert(no_completion(usage_events) && no_start(usage_events) && no_failure(usage_events));
                    assert(neutral_step(st, r));
                    lemma_neutral_sound(st, r);
                }
            }
        },
        None => lemma_neutral_sound(st, (st, seq![])),
    }
}

/// Whatever frame a projector receives, a stream that has completed stays
/// completed and reports no further completion, and a stream whose response has
/// started stays started and reports no further start.
pub proof fn law_stream_completes_and_starts_once(st: SpecProjectorState, raw: ProviderRawStreamEvent)
    ensures
        quiet_step(st, CanonicalStreamProjector::spec_step(st, raw)),
{
    law_step_sets_its_flags(st, raw);
}

/// A single frame completes the stream at most once and starts it at most
/// once, and a frame that emits `Completed`, `Failed` or `ResponseStarted` sets
/// the matching flag of the projector.
pub proof fn law_step_sets_its_flags(st: SpecProjectorState, raw: ProviderRawStreamEvent)
    ensures
        sound_step(st, CanonicalStreamProjector::spec_step(st, raw)),
{
    match raw.provider {
        crate::types::identity::ProviderKind::Anthropic => lemma_anthropic_step_sound(
            st,
            raw.spec_event_name(),
            raw.spec_json(),
        ),
        crate::types::identity::ProviderKind::OpenRouter => lemma_openrouter_step_sound(st, raw.payload@),
        _ => lemma_openai_step_sound(st, raw.spec_json()),
    }
}

/// The same holds of the Anthropic family projector.
pub proof fn law_family_stream_completes_and_starts_once(
    st: SpecProjectorState,
    name: Option<Seq<char>>,
    body: Option<SpecJson>,
)
    ensures
        quiet_step(st, spec_family_step(st, name, body)),
        sound_step(st, spec_family_step(st, name, body)),
{
    lemma_family_step_sound(st, name, body);
}

/// The state and all events of projecting `raws`, in order, from `st`.
pub open spec fn spec_run(st: SpecProjectorState, raws: Seq<ProviderRawStreamEvent>) -> (
    SpecProjectorState,
    Seq<SpecCanonicalStreamEvent>,
)
    decreases raws.len(),
{
    if raws.len() == 0 {
        (st, seq![])
    } else {
        let (s1, e1) = spec_run(st, raws.drop_last());
        let (s2, e2) = CanonicalStreamProjector::spec_step(s1, raws.last());
        (s2, e1 + e2)
    }
}

/// The state and all events of projecting `raws`, in order, through the
/// Anthropic family projector from `st`.
pub open spec fn spec_family_run(st: SpecProjectorState, raws: Seq<ProviderRawStreamEvent>) -> (
    SpecProjectorState,
    Seq<SpecCanonicalStreamEvent>,
)
    decreases raws.len(),
{
    if raws.len() == 0 {
        (st, seq![])
    } else {
        let (s1, e1) = spec_family_run(st, raws.drop_last());
        let (s2, e2) = spec_family_step(s1, raws.last().spec_event_name(), raws.last().spec_json());
        (s2, e1 + e2)
    }
}

/// Projecting one more frame extends a run by that frame's step: a projector
/// that has been fed `raws` in order holds `spec_run(st, raws).0`, and feeding
/// it `next` yields the events of `spec_run(st, raws.push(next))` past the old ones.
pub proof fn law_run_extends_by_one_frame(
    st: SpecProjectorState,
    raws: Seq<ProviderRawStreamEvent>,
    next: ProviderRawStreamEvent,
)
    ensures
        spec_run(st, raws.push(next)) == ({
            let (s, e) = spec_run(st, raws);
            let (s2, e2) = CanonicalStreamProjector::spec_step(s, next);
            (s2, e + e2)
        }),
{
    assert(raws.push(next).drop_last() =~= raws);
    assert(raws.push(next).last() == next);
}

/// The same for the Anthropic family projector.
pub proof fn law_family_run_extends_by_one_frame(
    st: SpecProjectorState,
    raws: Seq<ProviderRawStreamEvent>,
    next: ProviderRawStreamEvent,
)
    ensures
        spec_family_run(st, raws.push(next)) == ({
            let (s, e) = spec_family_run(st, raws);
            let (s2, e2) = spec_family_step(s, next.spec_event_name(), next.spec_json());
            (s2, e + e2)
        }),
{
    assert(raws.push(next).drop_last() =~= raws);
    assert(raws.push(next).last() == next);
}

proof fn lemma_run_sound(st: SpecProjectorState, raws: Seq<ProviderRawStreamEvent>)
    ensures
        sound_step(st, spec_run(st, raws)),
    decreases raws.len(),
{
    if raws.len() == 0 {
        lemma_neutral_sound(st, (st, seq![]));
    } else {
        lemma_run_sound(st, raws.drop_last());
        let (s1, e1) = spec_run(st, raws.drop_last());
        law_step_sets_its_flags(s1, raws.last());
        lemma_sound_seq(st, (s1, e1), CanonicalStreamProjector::spec_step(s1, raws.last()));
    }
}

proof fn lemma_family_run_sound(st: SpecProjectorState, raws: Seq<ProviderRawStreamEvent>)
    ensures
        sound_step(st, spec_family_run(st, raws)),
    decreases raws.len(),
{
    if raws.len() == 0 {
        lemma_neutral_sound(st, (st, seq![]));
    } else {
        lemma_family_run_sound(st, raws.drop_last());
        let (s1, e1) = spec_family_run(st, raws.drop_last());
        lemma_family_step_sound(s1, raws.last().spec_event_name(), raws.last().spec_json());
        lemma_sound_seq(
            st,
            (s1, e1),
            spec_family_step(s1, raws.last().spec_event_name(), raws.last().spec_json()),
        );
    }
}

/// Across any sequence of frames projected in order, the projector emits at
/// most one `Completed` and at most one `ResponseStarted` (none of either when
/// it had already completed or started), and once a `Completed` or `Failed`
/// has been emitted no later frame emits `Completed`.
pub proof fn law_run_completes_and_starts_once(
    st: SpecProjectorState,
    raws: Seq<ProviderRawStreamEvent>,
    next: ProviderRawStreamEvent,
)
    ensures
        completes_at_most_once(spec_run(st, raws).1),
        starts_at_most_once(spec_run(st, raws).1),
        st.completed ==> no_completion(spec_run(st, raws).1),
        st.response_started ==> no_start(spec_run(st, raws).1),
        !no_completion(spec_run(st, raws).1) || !no_failure(spec_run(st, raws).1) ==> no_completion(
            CanonicalStreamProjector::spec_step(spec_run(st, raws).0, next).1,
        ),
        !no_start(spec_run(st, raws).1) ==> no_start(
            CanonicalStreamProjector::spec_step(spec_run(st, raws).0, next).1,
        ),
{
    lemma_run_sound(st, raws);
    law_step_sets_its_flags(spec_run(st, raws).0, next);
}

/// The same over the Anthropic family projector, every call of which succeeds.
pub proof fn law_family_run_completes_and_starts_once(
    st: SpecProjectorState,
    raws: Seq<ProviderRawStreamEvent>,
    next: ProviderRawStreamEvent,
)
    ensures
        completes_at_most_once(spec_family_run(st, raws).1),
        starts_at_most_once(spec_family_run(st, raws).1),
        st.completed ==> no_completion(spec_family_run(st, raws).1),
        st.response_started ==> no_start(spec_family_run(st, raws).1),
        !no_completion(spec_family_run(st, raws).1) || !no_failure(spec_family_run(st, raws).1)
            ==> no_completion(
            spec_family_step(spec_family_run(st, raws).0, next.spec_event_name(), next.spec_json()).1,
        ),
        !no_start(spec_family_run(st, raws).1) ==> no_start(
            spec_family_step(spec_family_run(st, raws).0, next.spec_event_name(), next.spec_json()).1,
        ),
{
    lemma_family_run_sound(st, raws);
    lemma_family_step_sound(spec_family_run(st, raws).0, next.spec_event_name(), next.spec_json());
}

/// Once a choice finishes, none of its tool calls remain in flight; the tool
/// calls of other choices remain, in order.
pub proof fn law_finished_choice_leaves_no_tool_calls(
    es: Seq<(ToolCallKey, crate::stream::projector::SpecToolCallState)>,
    oi: u32,
)
    ensures
        forall|i: int| 0 <= i < tc_remaining(es, oi).len() ==> (#[trigger] tc_remaining(es, oi)[i]).0.0 != oi,
    decreases es.len(),
{
    if es.len() > 0 {
        law_finished_choice_leaves_no_tool_calls(es.drop_last(), oi);
        let rest = tc_remaining(es.drop_last(), oi);
        let r = tc_remaining(es, oi);
        assert forall|i: int| 0 <= i < r.len() implies (#[trigger] r[i]).0.0 != oi by {
            if i < rest.len() {
                assert(r[i] == rest[i]);
            }
        }
    }
}


/// A JSON chunk reaching a projector whose response has not started opens its
/// events with `ResponseStarted`, carrying the chunk's `model` and `id`; the
/// response is then started, so no later frame reports a start again.
pub proof fn law_openrouter_first_chunk_starts_response(
    st: SpecProjectorState,
    raw: ProviderRawStreamEvent,
    later: Seq<ProviderRawStreamEvent>,
)
    requires
        !st.response_started,
        raw.provider == crate::types::identity::ProviderKind::OpenRouter,
        raw.payload@ is Json,
    ensures
        ({
            let value = raw.payload@->Json_value;
            let r = CanonicalStreamProjector::spec_step(st, raw);
            &&& r.1.len() > 0
            &&& r.1[0] == (SpecCanonicalStreamEvent::ResponseStarted {
                model: value.str_at("model"@),
                response_id: value.str_at("id"@),
            })
            &&& r.0.response_started
            &&& no_start(spec_run(r.0, later).1)
        }),
{
    let value = raw.payload@->Json_value;
    let r = CanonicalStreamProjector::spec_step(st, raw);
    let s1 = SpecProjectorState { response_started: true, ..st };
    let e1 = seq![
        SpecCanonicalStreamEvent::ResponseStarted { model: value.str_at("model"@), response_id: value.str_at("id"@) },
    ];
    let e2 = match value.get("usage"@) {
        Some(u) => seq![
            SpecCanonicalStreamEvent::UsageUpdated { usage: crate::stream::projector::spec_openrouter_usage(u) },
        ],
        None => seq![],
    };
    let choices = match value.get("choices"@) {
        Some(c) => match c.as_array() {
            Some(a) => a,
            None => seq![],
        },
        None => seq![],
    };
    lemma_openrouter_choices_sound(s1, choices);
    let e3 = spec_openrouter_choices(s1, choices).1;
    assert(r.1 == e1 + e2 + e3);
    assert((e1 + e2 + e3)[0] == e1[0]);
    lemma_run_sound(r.0, later);
}

/// The completion event of an accumulated tool call of choice `oi`.
pub open spec fn tool_call_completion(oi: u32, s: SpecToolCallState) -> SpecCanonicalStreamEvent {
    SpecCanonicalStreamEvent::OutputItemCompleted {
        output_index: oi,
        item: SpecItemEnd::ToolCall {
            item_id: s.item_id,
            tool_call_id: s.tool_call_id,
            name: s.name->0,
            arguments_json_text: s.arguments,
        },
    }
}

/// The tool calls of choice `oi` that have a name, in key order.
pub open spec fn named_calls(es: Seq<(ToolCallKey, SpecToolCallState)>, oi: u32) -> Seq<
    (ToolCallKey, SpecToolCallState),
>
    decreases es.len(),
{
    if es.len() == 0 {
        seq![]
    } else {
        let rest = named_calls(es.drop_last(), oi);
        if es.last().0.0 == oi && es.last().1.name is Some {
            rest.push(es.last())
        } else {
            rest
        }
    }
}

proof fn lemma_named_calls_completions(es: Seq<(ToolCallKey, SpecToolCallState)>, oi: u32)
    ensures
        tc_completions(es, oi).len() == named_calls(es, oi).len(),
        forall|y: int|
            0 <= y < named_calls(es, oi).len() ==> tc_completions(es, oi)[y] == tool_call_completion(
                oi,
                (#[trigger] named_calls(es, oi)[y]).1,
            ),
    decreases es.len(),
{
    if es.len() > 0 {
        lemma_named_calls_completions(es.drop_last(), oi);
    }
}

proof fn lemma_named_calls_members(es: Seq<(ToolCallKey, SpecToolCallState)>, oi: u32, x: int)
    requires
        0 <= x < es.len(),
        es[x].0.0 == oi,
        es[x].1.name is Some,
    ensures
        exists|y: int| 0 <= y < named_calls(es, oi).len() && #[trigger] named_calls(es, oi)[y] == es[x],
    decreases es.len(),
{
    let d = es.drop_last();
    let rest = named_calls(d, oi);
    if x == es.len() - 1 {
        assert(named_calls(es, oi)[rest.len() as int] == es[x]);
    } else {
        assert(d[x] == es[x]);
        lemma_named_calls_members(d, oi, x);
        let y = choose|y: int| 0 <= y < rest.len() && #[trigger] rest[y] == d[x];
        assert(named_calls(es, oi)[y] == es[x]);
    }
}

proof fn lemma_named_calls_sorted(es: Seq<(ToolCallKey, SpecToolCallState)>, oi: u32)
    requires
        keys_increasing(es),
    ensures
        keys_increasing(named_calls(es, oi)),
        es.len() > 0 ==> forall|x: int|
            0 <= x < named_calls(es, oi).len() ==> key_at_most(#[trigger] named_calls(es, oi)[x].0, es.last().0),
    decreases es.len(),
{
    if es.len() > 0 {
        let d = es.drop_last();
        assert forall|i: int, j: int| 0 <= i < j < d.len() implies key_before(
            #[trigger] d[i].0,
            #[trigger] d[j].0,
        ) by {
            assert(d[i] == es[i] && d[j] == es[j]);
        }
        lemma_named_calls_sorted(d, oi);
        let rest = named_calls(d, oi);
        if d.len() > 0 {
            assert(key_before(d.last().0, es.last().0)) by {
                assert(d.last() == es[es.len() - 2]);
            }
        }
        assert forall|x: int| 0 <= x < rest.len() implies key_before(#[trigger] rest[x].0, es.last().0) by {
            assert(d.len() > 0);
            assert(key_at_most(rest[x].0, d.last().0));
        }
    }
}

proof fn lemma_no_completions_left(es: Seq<(ToolCallKey, SpecToolCallState)>, oi: u32)
    requires
        forall|i: int| 0 <= i < es.len() ==> (#[trigger] es[i]).0.0 != oi,
    ensures
        tc_completions(es, oi) == Seq::<SpecCanonicalStreamEvent>::empty(),
    decreases es.len(),
{
    if es.len() > 0 {
        let d = es.drop_last();
        assert forall|i: int| 0 <= i < d.len() implies (#[trigger] d[i]).0.0 != oi by {
            assert(d[i] == es[i]);
        }
        lemma_no_completions_left(d, oi);
        assert(es.last() == es[es.len() - 1]);
    }
}

/// When choice `oi` finishes, its tool calls complete in key order, one event
/// per named call, each carrying the call's name, ids and all its accumulated
/// argument text; each call in flight for the choice is among them exactly once
/// (keys are distinct), and none stays in flight, so a later finish of the
/// choice completes none of them again.
pub proof fn law_finished_choice_completes_its_tool_calls_once(
    es: Seq<(ToolCallKey, SpecToolCallState)>,
    oi: u32,
    x: int,
)
    requires
        keys_increasing(es),
        0 <= x < es.len(),
        es[x].0.0 == oi,
        es[x].1.name is Some,
    ensures
        tc_completions(es, oi).len() == named_calls(es, oi).len(),
        forall|y: int|
            0 <= y < named_calls(es, oi).len() ==> tc_completions(es, oi)[y] == tool_call_completion(
                oi,
                (#[trigger] named_calls(es, oi)[y]).1,
            ),
        keys_increasing(named_calls(es, oi)),
        exists|y: int|
            0 <= y < named_calls(es, oi).len() && #[trigger] named_calls(es, oi)[y] == es[x]
                && tc_completions(es, oi)[y] == tool_call_completion(oi, es[x].1),
        tc_lookup(tc_remaining(es, oi), es[x].0) is None,
        tc_completions(tc_remaining(es, oi), oi) == Seq::<SpecCanonicalStreamEvent>::empty(),
{
    lemma_named_calls_completions(es, oi);
    lemma_named_calls_sorted(es, oi);
    lemma_named_calls_members(es, oi, x);
    let y = choose|y: int| 0 <= y < named_calls(es, oi).len() && #[trigger] named_calls(es, oi)[y] == es[x];
    assert(tc_completions(es, oi)[y] == tool_call_completion(oi, es[x].1));
    law_finished_choice_leaves_no_tool_calls(es, oi);
    lemma_no_completions_left(tc_remaining(es, oi), oi);
}

/// The state a choice's delta leaves the projector in (the state itself when
/// the choice has no delta).
pub open spec fn choice_delta_state(st: SpecProjectorState, choice: SpecJson) -> SpecProjectorState {
    match choice.get("delta"@) {
        Some(d) => spec_openrouter_delta(st, u32_or_zero(choice.u32_at("index"@)), d).0,
        None => st,
    }
}

/// A choice that carries a finish reason emits the completions of the tool
/// calls its choice had accumulated (after its own delta), and leaves only the
/// tool calls of other choices in flight.
pub proof fn law_finish_reason_emits_accumulated_tool_calls(st: SpecProjectorState, choice: SpecJson)
    requires
        spec_parse_finish_reason(choice.str_at("finish_reason"@)) is Some,
    ensures
        ({
            let oi = u32_or_zero(choice.u32_at("index"@));
            let calls = choice_delta_state(st, choice).openrouter_tool_calls;
            &&& spec_openrouter_choice(st, choice).0.openrouter_tool_calls == tc_remaining(calls, oi)
            &&& exists|pre: Seq<SpecCanonicalStreamEvent>, post: Seq<SpecCanonicalStreamEvent>|
                spec_openrouter_choice(st, choice).1 == pre + tc_completions(calls, oi) + post
        }),
{
    let oi = u32_or_zero(choice.u32_at("index"@));
    let (s1, e1) = match choice.get("delta"@) {
        Some(d) => spec_openrouter_delta(st, oi, d),
        None => (st, seq![]),
    };
    let r = spec_openrouter_choice(st, choice);
    let e3 = tc_completions(s1.openrouter_tool_calls, oi);
    let e2 = if s1.openrouter_message_items.contains_key(oi) && !s1.openrouter_message_items[oi].completed {
        seq![
            SpecCanonicalStreamEvent::OutputItemCompleted {
                output_index: oi,
                item: SpecItemEnd::Message { item_id: s1.openrouter_message_items[oi].item_id },
            },
        ]
    } else {
        seq![]
    };
    let finish = spec_parse_finish_reason(choice.str_at("finish_reason"@))->0;
    let s3_completed = s1.completed;
    if !s3_completed {
        let post = seq![SpecCanonicalStreamEvent::Completed { finish_reason: finish }];
        assert(r.1 == e1 + e2 + e3 + post);
    } else {
        let post = Seq::<SpecCanonicalStreamEvent>::empty();
        assert(r.1 == e1 + e2 + e3);
        assert(e1 + e2 + e3 =~= e1 + e2 + e3 + post);
    }
}

/// The argument text carried by a list of tool call deltas, in order.
pub open spec fn argument_fragments(tcs: Seq<SpecJson>) -> Seq<char>
    decreases tcs.len(),
{
    if tcs.len() == 0 {
        Seq::empty()
    } else {
        argument_fragments(tcs.drop_last()) + match opt_str_at(tcs.last().get("function"@), "arguments"@) {
            Some(a) => a,
            None => Seq::empty(),
        }
    }
}

proof fn lemma_insert_pos_at(es: Seq<(ToolCallKey, SpecToolCallState)>, key: ToolCallKey, i: int, q: int)
    requires
        0 <= i <= q <= es.len(),
        forall|j: int| i <= j < q ==> key_before(#[trigger] es[j].0, key),
        q < es.len() ==> !key_before(es[q].0, key),
    ensures
        insert_pos(es, key, i) == q,
    decreases q - i,
{
    if i < q {
        lemma_insert_pos_at(es, key, i + 1, q);
    }
}

/// Looking a key up right after setting it gives the value set.
proof fn lemma_lookup_upsert(es: Seq<(ToolCallKey, SpecToolCallState)>, key: ToolCallKey, val: SpecToolCallState)
    requires
        keys_increasing(es),
    ensures
        tc_lookup(tc_upsert(es, key, val), key) == Some(val),
        keys_increasing(tc_upsert(es, key, val)),
{
    lemma_insert_pos(es, key, 0);
    lemma_upsert_sorted(es, key, val);
    let p = insert_pos(es, key, 0);
    let r = tc_upsert(es, key, val);
    assert forall|j: int| 0 <= j < p implies key_before(#[trigger] r[j].0, key) by {
        assert(r[j] == es[j]);
    }
    assert(r[p] == (key, val));
    lemma_insert_pos_at(r, key, 0, p);
}

/// Tool call deltas addressed to one call, `(oi, k)`, append their argument
/// fragments, in order, to the text the call had accumulated, and keep the
/// name the call had been given.
pub proof fn law_tool_call_arguments_accumulate(st: SpecProjectorState, oi: u32, k: u32, tcs: Seq<SpecJson>)
    requires
        keys_increasing(st.openrouter_tool_calls),
        tcs.len() > 0,
        forall|j: int| 0 <= j < tcs.len() ==> spec_tool_call_index(#[trigger] tcs[j], j) == k,
    ensures
        ({
            let base = match tc_lookup(st.openrouter_tool_calls, (oi, k)) {
                Some(s) => s,
                None => empty_tool_call(),
            };
            let after = spec_tool_call_deltas(st, oi, tcs).0.openrouter_tool_calls;
            &&& keys_increasing(after)
            &&& tc_lookup(after, (oi, k)) matches Some(s) && s.arguments == base.arguments + argument_fragments(tcs)
                && (base.name is Some ==> s.name == base.name)
        }),
    decreases tcs.len(),
{
    let base = match tc_lookup(st.openrouter_tool_calls, (oi, k)) {
        Some(s) => s,
        None => empty_tool_call(),
    };
    let d = tcs.drop_last();
    let (s1, e1) = spec_tool_call_deltas(st, oi, d);
    let last = tcs.last();
    assert(spec_tool_call_index(tcs[tcs.len() - 1], tcs.len() - 1) == k);
    if d.len() > 0 {
        assert forall|j: int| 0 <= j < d.len() implies spec_tool_call_index(#[trigger] d[j], j) == k by {
            assert(d[j] == tcs[j]);
        }
        law_tool_call_arguments_accumulate(st, oi, k, d);
    } else {
        assert(s1 == st);
        assert(argument_fragments(d) =~= Seq::<char>::empty());
        assert(base.arguments + argument_fragments(d) =~= base.arguments);
    }
    let prev = match tc_lookup(s1.openrouter_tool_calls, (oi, k)) {
        Some(s) => s,
        None => empty_tool_call(),
    };
    assert(prev.arguments == base.arguments + argument_fragments(d));
    let function = last.get("function"@);
    let name = if prev.name is None {
        opt_str_at(function, "name"@)
    } else {
        prev.name
    };
    let tool_call_id = if prev.tool_call_id is None {
        last.str_at("id"@)
    } else {
        prev.tool_call_id
    };
    let item_id = if prev.item_id is None {
        last.str_at("id"@)
    } else {
        prev.item_id
    };
    let frag = match opt_str_at(function, "arguments"@) {
        Some(a) => a,
        None => Seq::empty(),
    };
    let arguments = match opt_str_at(function, "arguments"@) {
        Some(a) => prev.arguments + a,
        None => prev.arguments,
    };
    assert(arguments =~= prev.arguments + frag);
    let val = SpecToolCallState { item_id, tool_call_id, name, arguments };
    assert(spec_tool_call_deltas(st, oi, tcs).0.openrouter_tool_calls == tc_upsert(
        s1.openrouter_tool_calls,
        (oi, k),
        val,
    ));
    lemma_lookup_upsert(s1.openrouter_tool_calls, (oi, k), val);
    assert(base.arguments + argument_fragments(d) + frag =~= base.arguments + argument_fragments(tcs));
}

/// An OpenRouter chunk whose one choice, `c`, carries tool call deltas all
/// addressed to call `k` and no finish reason appends their argument
/// fragments, in order, to the text call `(c, k)` had accumulated in earlier
/// chunks, and keeps its name; applied chunk after chunk, the call holds the
/// concatenation of all its fragments until its choice finishes.
pub proof fn law_openrouter_chunk_accumulates_tool_arguments(
    st: SpecProjectorState,
    value: SpecJson,
    choice: SpecJson,
    tcs: Seq<SpecJson>,
    k: u32,
)
    requires
        keys_increasing(st.openrouter_tool_calls),
        value.get("choices"@) matches Some(cs) && cs.as_array() == Some(seq![choice]),
        choice.get("delta"@) matches Some(d) && (d.get("tool_calls"@) matches Some(t) && t.as_array() == Some(tcs)),
        spec_parse_finish_reason(choice.str_at("finish_reason"@)) is None,
        tcs.len() > 0,
        forall|j: int| 0 <= j < tcs.len() ==> spec_tool_call_index(#[trigger] tcs[j], j) == k,
    ensures
        ({
            let c = u32_or_zero(choice.u32_at("index"@));
            let base = match tc_lookup(st.openrouter_tool_calls, (c, k)) {
                Some(s) => s,
                None => empty_tool_call(),
            };
            let after = spec_openrouter_step(st, SpecRawStreamPayload::Json { value }).0.openrouter_tool_calls;
            &&& keys_increasing(after)
            &&& tc_lookup(after, (c, k)) matches Some(s) && s.arguments == base.arguments + argument_fragments(tcs)
                && (base.name is Some ==> s.name == base.name)
        }),
{
    let c = u32_or_zero(choice.u32_at("index"@));
    let d = choice.get("delta"@)->0;
    let s1 = if !st.response_started {
        SpecProjectorState { response_started: true, ..st }
    } else {
        st
    };
    let cs = seq![choice];
    assert(cs.drop_last() =~= Seq::<SpecJson>::empty());
    assert(cs.last() == choice);
    assert(spec_openrouter_choices(s1, Seq::<SpecJson>::empty()).0 == s1);
    assert(spec_openrouter_choices(s1, cs.drop_last()).0 == s1);
    assert(spec_openrouter_choices(s1, cs).0 == spec_openrouter_choice(s1, choice).0);
    let s2 = match d.str_at("content"@) {
        Some(content) => if content.len() > 0 && !s1.openrouter_message_items.contains_key(c) {
            SpecProjectorState {
                openrouter_message_items: s1.openrouter_message_items.insert(
                    c,
                    crate::stream::projector::SpecMessageItemState { item_id: None, completed: false },
                ),
                ..s1
            }
        } else {
            s1
        },
        None => s1,
    };
    assert(s2.openrouter_tool_calls == st.openrouter_tool_calls);
    assert(spec_openrouter_delta(s1, c, d).0 == spec_tool_call_deltas(s2, c, tcs).0);
    law_tool_call_arguments_accumulate(s2, c, k, tcs);
}

} // verus!
