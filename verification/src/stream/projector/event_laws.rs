//! Laws on what frames, and runs of frames, stream: Anthropic text and
//! tool-input deltas and block completions, OpenAI function-call items and
//! deltas, and OpenRouter content.
use vstd::prelude::*;

use crate::json::SpecJson;
use crate::providers::anthropic::stream_projector::spec_family_step;
use crate::stream::canonical::{SpecCanonicalStreamEvent, SpecItemEnd, SpecItemStart};
use crate::stream::projector::anthropic::{spec_anthropic_block_delta, spec_anthropic_block_stop, spec_anthropic_step};
use crate::stream::projector::openai::{spec_openai_item_added, spec_openai_item_done, spec_openai_step};
use crate::stream::projector::openrouter::{
    spec_openrouter_choice, spec_openrouter_choices, spec_openrouter_delta, spec_openrouter_step,
    spec_tool_call_deltas,
};
use crate::stream::projector::laws::spec_run;
use crate::stream::projector::{
    spec_parse_finish_reason, u32_or_zero, CanonicalStreamProjector, SpecBlockState, SpecProjectorState,
};
use crate::stream::raw::{ProviderRawStreamEvent, SpecRawStreamPayload};
use crate::types::identity::ProviderKind;

verus! {

/// The step leaves the state as it was and yields exactly one event: a text
/// delta of content 0 of output `index`, carrying `text`.
pub open spec fn yields_only_text(
    st: SpecProjectorState,
    res: (SpecProjectorState, Seq<SpecCanonicalStreamEvent>),
    index: u32,
    text: Seq<char>,
) -> bool {
    &&& res.0 == st
    &&& res.1.len() == 1
    &&& res.1[0] matches SpecCanonicalStreamEvent::TextDelta { output_index, content_index, delta, .. }
        && output_index == index && content_index == 0 && delta == text
}

/// An Anthropic `content_block_delta` frame at index `i` whose delta is a
/// `text_delta` with text `t` yields exactly one event, the text delta `t` of
/// block `i` (content 0), tagged with the item id of the block open at `i`
/// if any, and changes no state; the same holds in the family projector. A block's streamed text is thus its text deltas' texts in order.
pub proof fn law_anthropic_text_delta_streams_its_text(
    st: SpecProjectorState,
    raw: ProviderRawStreamEvent,
    v: SpecJson,
    d: SpecJson,
    i: u32,
    t: Seq<char>,
)
    requires
        raw.provider == ProviderKind::Anthropic,
        raw.spec_event_name() == Some("content_block_delta"@),
        raw.spec_json() == Some(v),
        v.u32_at("index"@) == Some(i),
        v.get("delta"@) == Some(d),
        d.str_at("type"@) == Some("text_delta"@),
        d.str_at("text"@) == Some(t),
    ensures
        yields_only_text(st, CanonicalStreamProjector::spec_step(st, raw), i, t),
        yields_only_text(st, spec_family_step(st, raw.spec_event_name(), raw.spec_json()), i, t),
        CanonicalStreamProjector::spec_step(st, raw).1[0]->TextDelta_item_id == if st.anthropic_blocks.contains_key(i) {
            st.anthropic_blocks[i].item_id()
        } else {
            None
        },
{
    reveal_strlit("content_block_delta");
    reveal_strlit("content_block_start");
    reveal_strlit("message_start");
    reveal_strlit("text_delta");
    assert("content_block_delta"@[14] != "content_block_start"@[14]);
    assert("content_block_delta"@ != "content_block_start"@);
    assert("content_block_delta"@[0] != "message_start"@[0]);
    assert("content_block_delta"@ != "message_start"@);
    let r = spec_anthropic_block_delta(st, v);
    assert(spec_anthropic_step(st, Some("content_block_delta"@), Some(v)) == r);
    assert(spec_family_step(st, Some("content_block_delta"@), Some(v)) == r);
}

/// The tool call an OpenAI `response.output_item.added` or `.done` frame
/// reports for a named `function_call` item: its item id is the item's `id`,
/// its tool call id the item's `call_id`, its name the item's `name`, and on
/// completion its arguments the item's `arguments` (empty when absent). The
/// frame yields that one event at the frame's output index and changes no state.
pub proof fn law_openai_function_call_item_ids(
    st: SpecProjectorState,
    raw: ProviderRawStreamEvent,
    v: SpecJson,
    item: SpecJson,
    oi: u32,
    name: Seq<char>,
)
    requires
        raw.provider == ProviderKind::OpenAi || raw.provider == ProviderKind::GenericOpenAiCompatible,
        raw.spec_json() == Some(v),
        v.u32_at("output_index"@) == Some(oi),
        v.get("item"@) == Some(item),
        item.str_at("type"@) == Some("function_call"@),
        item.str_at("name"@) == Some(name),
    ensures
        v.str_at("type"@) == Some("response.output_item.added"@) ==> CanonicalStreamProjector::spec_step(st, raw)
            == (
            st,
            seq![
                SpecCanonicalStreamEvent::OutputItemStarted {
                    output_index: oi,
                    item: SpecItemStart::ToolCall {
                        item_id: item.str_at("id"@),
                        tool_call_id: item.str_at("call_id"@),
                        name,
                    },
                },
            ],
        ),
        v.str_at("type"@) == Some("response.output_item.done"@) ==> CanonicalStreamProjector::spec_step(st, raw)
            == (
            st,
            seq![
                SpecCanonicalStreamEvent::OutputItemCompleted {
                    output_index: oi,
                    item: SpecItemEnd::ToolCall {
                        item_id: item.str_at("id"@),
                        tool_call_id: item.str_at("call_id"@),
                        name,
                        arguments_json_text: match item.str_at("arguments"@) {
                            Some(a) => a,
                            None => Seq::empty(),
                        },
                    },
                },
            ],
        ),
{
    reveal_strlit("function_call");
    reveal_strlit("message");
    reveal_strlit("response.created");
    reveal_strlit("response.in_progress");
    reveal_strlit("response.output_item.added");
    reveal_strlit("response.output_text.delta");
    reveal_strlit("response.function_call_arguments.delta");
    reveal_strlit("response.output_item.done");
    assert("function_call"@[0] != "message"@[0]);
    assert("function_call"@ != "message"@);
    let added = "response.output_item.added"@;
    let done = "response.output_item.done"@;
    assert(added[9] != "response.created"@[9]);
    assert(added[9] != "response.in_progress"@[9]);
    assert(done[9] != "response.created"@[9]);
    assert(done[9] != "response.in_progress"@[9]);
    assert(done[9] != "response.function_call_arguments.delta"@[9]);
    assert(done[16] != "response.output_text.delta"@[16]);
    assert(done[21] != added[21]);
    assert(added != "response.created"@);
    assert(added != "response.in_progress"@);
    assert(done != "response.created"@);
    assert(done != "response.in_progress"@);
    assert(done != added);
    assert(done != "response.output_text.delta"@);
    assert(done != "response.function_call_arguments.delta"@);
    assert(spec_openai_step(st, Some(v)) == CanonicalStreamProjector::spec_step(st, raw));
    if v.str_at("type"@) == Some(added) {
        assert(spec_openai_step(st, Some(v)) == (st, spec_openai_item_added(v)));
    }
    if v.str_at("type"@) == Some(done) {
        assert(spec_openai_step(st, Some(v)) == (st, spec_openai_item_done(v)));
    }
}

/// The text delta a non-empty `content` of choice `oi` streams.
pub open spec fn content_delta(oi: u32, c: Seq<char>) -> SpecCanonicalStreamEvent {
    SpecCanonicalStreamEvent::TextDelta { output_index: oi, content_index: 0, item_id: None, delta: c }
}

/// Every OpenRouter choice whose delta carries non-empty `content` streams it
/// as a text delta of that choice, in any state: whether or not an earlier
/// chunk already opened the choice's message item.
pub proof fn law_openrouter_choice_streams_content(st: SpecProjectorState, choice: SpecJson, d: SpecJson, c: Seq<char>)
    requires
        choice.get("delta"@) == Some(d),
        d.str_at("content"@) == Some(c),
        c.len() > 0,
    ensures
        spec_openrouter_choice(st, choice).1.contains(content_delta(u32_or_zero(choice.u32_at("index"@)), c)),
{
    let oi = u32_or_zero(choice.u32_at("index"@));
    let ev = content_delta(oi, c);
    let (s1, e1) = spec_openrouter_delta(st, oi, d);
    let (s0, e0) = if !st.openrouter_message_items.contains_key(oi) {
        (
            SpecProjectorState {
                openrouter_message_items: st.openrouter_message_items.insert(
                    oi,
                    crate::stream::projector::SpecMessageItemState { item_id: None, completed: false },
                ),
                ..st
            },
            seq![
                SpecCanonicalStreamEvent::OutputItemStarted {
                    output_index: oi,
                    item: SpecItemStart::Message {
                        item_id: None,
                        role: crate::types::message::MessageRole::Assistant,
                    },
                },
            ],
        )
    } else {
        (st, Seq::<SpecCanonicalStreamEvent>::empty())
    };
    let first = e0.push(ev);
    assert(first[first.len() - 1] == ev);
    let k = first.len() - 1;
    match d.get("tool_calls"@) {
        Some(tc) => match tc.as_array() {
            Some(tcs) => {
                let e2 = spec_tool_call_deltas(s0, oi, tcs).1;
                assert(e1 == first + e2);
                assert(e1[k] == ev);
            },
            None => {
                assert(e1 == first);
                assert(e1[k] == ev);
            },
        },
        None => {
            assert(e1 == first);
            assert(e1[k] == ev);
        },
    }
    let r = spec_openrouter_choice(st, choice).1;
    assert(r[k] == ev) by {
        match crate::stream::projector::spec_parse_finish_reason(choice.str_at("finish_reason"@)) {
            None => {},
            Some(_) => {},
        }
    }
}

/// Each choice's events stand within the events of the whole choice list.
proof fn lemma_choices_contain(st: SpecProjectorState, cs: Seq<SpecJson>, j: int, ev: SpecCanonicalStreamEvent)
    requires
        0 <= j < cs.len(),
        forall|s: SpecProjectorState| #[trigger] spec_openrouter_choice(s, cs[j]).1.contains(ev),
    ensures
        spec_openrouter_choices(st, cs).1.contains(ev),
    decreases cs.len(),
{
    let (s1, e1) = spec_openrouter_choices(st, cs.drop_last());
    let e2 = spec_openrouter_choice(s1, cs.last()).1;
    assert(spec_openrouter_choices(st, cs).1 == e1 + e2);
    if j == cs.len() - 1 {
        assert(e2.contains(ev));
        let w = choose|w: int| 0 <= w < e2.len() && e2[w] == ev;
        assert((e1 + e2)[e1.len() + w] == ev);
    } else {
        assert(cs.drop_last()[j] == cs[j]);
        lemma_choices_contain(st, cs.drop_last(), j, ev);
        let w = choose|w: int| 0 <= w < e1.len() && e1[w] == ev;
        assert((e1 + e2)[w] == ev);
    }
}

/// In an OpenRouter chunk, every choice whose delta carries non-empty
/// `content` streams it as a text delta of that choice, in any state; over a
/// stream a choice's text deltas are thus all its non-empty contents.
pub proof fn law_openrouter_chunk_streams_content(
    st: SpecProjectorState,
    value: SpecJson,
    cs: Seq<SpecJson>,
    j: int,
    d: SpecJson,
    c: Seq<char>,
)
    requires
        value.get("choices"@) matches Some(a) && a.as_array() == Some(cs),
        0 <= j < cs.len(),
        cs[j].get("delta"@) == Some(d),
        d.str_at("content"@) == Some(c),
        c.len() > 0,
    ensures
        spec_openrouter_step(st, SpecRawStreamPayload::Json { value }).1.contains(
            content_delta(u32_or_zero(cs[j].u32_at("index"@)), c),
        ),
{
    let ev = content_delta(u32_or_zero(cs[j].u32_at("index"@)), c);
    assert forall|s: SpecProjectorState| #[trigger] spec_openrouter_choice(s, cs[j]).1.contains(ev) by {
        law_openrouter_choice_streams_content(s, cs[j], d, c);
    }
    let s1 = if !st.response_started {
        SpecProjectorState { response_started: true, ..st }
    } else {
        st
    };
    lemma_choices_contain(s1, cs, j, ev);
    let e3 = spec_openrouter_choices(s1, cs).1;
    let w = choose|w: int| 0 <= w < e3.len() && e3[w] == ev;
    let r = spec_openrouter_step(st, SpecRawStreamPayload::Json { value }).1;
    let pre = r.len() - e3.len();
    assert(r[pre + w] == ev);
}

/// Whether `raw` is an Anthropic `content_block_delta` frame for block `i`
/// whose delta is a `text_delta` carrying text.
pub open spec fn is_text_delta_frame(raw: ProviderRawStreamEvent, i: u32) -> bool {
    &&& raw.provider == ProviderKind::Anthropic
    &&& raw.spec_event_name() == Some("content_block_delta"@)
    &&& raw.spec_json() matches Some(v) && v.u32_at("index"@) == Some(i) && (v.get("delta"@) matches Some(d)
        && d.str_at("type"@) == Some("text_delta"@) && d.str_at("text"@) is Some)
}

/// The text a text-delta frame carries.
pub open spec fn frame_text(raw: ProviderRawStreamEvent) -> Seq<char> {
    raw.spec_json()->0.get("delta"@)->0.str_at("text"@)->0
}

/// The texts of the frames, one after another.
pub open spec fn frame_texts(raws: Seq<ProviderRawStreamEvent>) -> Seq<char>
    decreases raws.len(),
{
    if raws.len() == 0 {
        Seq::empty()
    } else {
        frame_texts(raws.drop_last()) + frame_text(raws.last())
    }
}

/// The text streamed for output `i`: the deltas of its text delta events, in order.
pub open spec fn streamed_text(evs: Seq<SpecCanonicalStreamEvent>, i: u32) -> Seq<char>
    decreases evs.len(),
{
    if evs.len() == 0 {
        Seq::empty()
    } else {
        streamed_text(evs.drop_last(), i) + match evs.last() {
            SpecCanonicalStreamEvent::TextDelta { output_index, delta, .. } => if output_index == i {
                delta
            } else {
                Seq::empty()
            },
            _ => Seq::empty(),
        }
    }
}

/// The text streamed by two event lists in turn is the first's followed by the second's.
proof fn lemma_streamed_text_concat(a: Seq<SpecCanonicalStreamEvent>, b: Seq<SpecCanonicalStreamEvent>, i: u32)
    ensures
        streamed_text(a + b, i) == streamed_text(a, i) + streamed_text(b, i),
    decreases b.len(),
{
    if b.len() == 0 {
        assert(a + b =~= a);
    } else {
        assert((a + b).drop_last() =~= a + b.drop_last());
        assert((a + b).last() == b.last());
        lemma_streamed_text_concat(a, b.drop_last(), i);
    }
}

/// Projecting a run of Anthropic text-delta frames for block `i` changes no
/// state, and the text streamed for block `i` is the frames' texts
/// concatenated in order.
pub proof fn law_anthropic_block_text_is_its_deltas(
    st: SpecProjectorState,
    raws: Seq<ProviderRawStreamEvent>,
    i: u32,
)
    requires
        forall|j: int| 0 <= j < raws.len() ==> is_text_delta_frame(#[trigger] raws[j], i),
    ensures
        spec_run(st, raws).0 == st,
        streamed_text(spec_run(st, raws).1, i) == frame_texts(raws),
    decreases raws.len(),
{
    if raws.len() > 0 {
        let init = raws.drop_last();
        assert forall|j: int| 0 <= j < init.len() implies is_text_delta_frame(#[trigger] init[j], i) by {
            assert(init[j] == raws[j]);
        }
        law_anthropic_block_text_is_its_deltas(st, init, i);
        let last = raws.last();
        assert(is_text_delta_frame(raws[raws.len() - 1], i));
        let v = last.spec_json()->0;
        let d = v.get("delta"@)->0;
        law_anthropic_text_delta_streams_its_text(st, last, v, d, i, frame_text(last));
        let e1 = spec_run(st, init).1;
        let e2 = CanonicalStreamProjector::spec_step(st, last).1;
        lemma_streamed_text_concat(e1, e2, i);
        assert(e2.drop_last() =~= Seq::<SpecCanonicalStreamEvent>::empty());
        assert(streamed_text(e2.drop_last(), i) == Seq::<char>::empty());
        assert(e2.last() == e2[0]);
        assert(Seq::<char>::empty() + frame_text(last) =~= frame_text(last));
        assert(streamed_text(e2, i) == frame_text(last));
    }
}

/// Events none of which is a text delta stream no text.
proof fn lemma_streamed_text_none(evs: Seq<SpecCanonicalStreamEvent>, i: u32)
    requires
        forall|j: int| 0 <= j < evs.len() ==> !(#[trigger] evs[j] is TextDelta),
    ensures
        streamed_text(evs, i) == Seq::<char>::empty(),
    decreases evs.len(),
{
    if evs.len() > 0 {
        let init = evs.drop_last();
        assert forall|j: int| 0 <= j < init.len() implies !(#[trigger] init[j] is TextDelta) by {
            assert(init[j] == evs[j]);
        }
        lemma_streamed_text_none(init, i);
        assert(!(evs[evs.len() - 1] is TextDelta));
        assert(Seq::<char>::empty() + Seq::<char>::empty() =~= Seq::<char>::empty());
    }
}

/// Whether `raw` is an OpenRouter chunk with the one choice `c`, which has a
/// delta without tool calls and no finish reason.
pub open spec fn is_plain_chunk(raw: ProviderRawStreamEvent, c: u32) -> bool {
    &&& raw.provider == ProviderKind::OpenRouter
    &&& raw.payload@ matches SpecRawStreamPayload::Json { value } && (value.get("choices"@) matches Some(a)
        && (a.as_array() matches Some(cs) && cs.len() == 1 && u32_or_zero(cs[0].u32_at("index"@)) == c
        && spec_parse_finish_reason(cs[0].str_at("finish_reason"@)) is None && (cs[0].get("delta"@) matches Some(
        d) && d.get("tool_calls"@) is None)))
}

/// The content a plain chunk's choice carries; empty when it has none.
pub open spec fn chunk_content(raw: ProviderRawStreamEvent) -> Seq<char> {
    let cs = raw.payload@->Json_value.get("choices"@)->0.as_array()->0;
    match cs[0].get("delta"@)->0.str_at("content"@) {
        Some(t) => t,
        None => Seq::empty(),
    }
}

/// The contents of the chunks, one after another.
pub open spec fn chunk_contents(raws: Seq<ProviderRawStreamEvent>) -> Seq<char>
    decreases raws.len(),
{
    if raws.len() == 0 {
        Seq::empty()
    } else {
        chunk_contents(raws.drop_last()) + chunk_content(raws.last())
    }
}

/// The text one plain chunk streams for its choice is its content.
proof fn lemma_plain_chunk_streams_content(st: SpecProjectorState, raw: ProviderRawStreamEvent, c: u32)
    requires
        is_plain_chunk(raw, c),
    ensures
        streamed_text(CanonicalStreamProjector::spec_step(st, raw).1, c) == chunk_content(raw),
{
    let value = raw.payload@->Json_value;
    let cs = value.get("choices"@)->0.as_array()->0;
    let choice = cs[0];
    let d = choice.get("delta"@)->0;
    let s1 = if !st.response_started {
        SpecProjectorState { response_started: true, ..st }
    } else {
        st
    };
    let e1 = if !st.response_started {
        seq![
            SpecCanonicalStreamEvent::ResponseStarted {
                model: value.str_at("model"@),
                response_id: value.str_at("id"@),
            },
        ]
    } else {
        Seq::<SpecCanonicalStreamEvent>::empty()
    };
    let e2 = match value.get("usage"@) {
        Some(u) => seq![
            SpecCanonicalStreamEvent::UsageUpdated { usage: crate::stream::projector::spec_openrouter_usage(u) },
        ],
        None => Seq::<SpecCanonicalStreamEvent>::empty(),
    };
    assert(cs.drop_last() =~= Seq::<SpecJson>::empty());
    assert(cs.last() == choice);
    let ed = spec_openrouter_delta(s1, c, d).1;
    assert(spec_openrouter_choices(s1, Seq::<SpecJson>::empty()) == (s1, Seq::<SpecCanonicalStreamEvent>::empty()));
    assert(spec_openrouter_choices(s1, cs.drop_last()) == (s1, Seq::<SpecCanonicalStreamEvent>::empty()));
    assert(spec_openrouter_choice(s1, choice).1 == ed);
    assert(spec_openrouter_choices(s1, cs).1 =~= Seq::<SpecCanonicalStreamEvent>::empty() + ed);
    let r = CanonicalStreamProjector::spec_step(st, raw).1;
    assert(r == e1 + e2 + ed);
    lemma_streamed_text_none(e1, c);
    lemma_streamed_text_none(e2, c);
    lemma_streamed_text_concat(e1, e2, c);
    lemma_streamed_text_concat(e1 + e2, ed, c);
    let opened = if !s1.openrouter_message_items.contains_key(c) {
        seq![
            SpecCanonicalStreamEvent::OutputItemStarted {
                output_index: c,
                item: SpecItemStart::Message { item_id: None, role: crate::types::message::MessageRole::Assistant },
            },
        ]
    } else {
        Seq::<SpecCanonicalStreamEvent>::empty()
    };
    lemma_streamed_text_none(opened, c);
    let t = chunk_content(raw);
    if t.len() > 0 {
        let td = seq![content_delta(c, t)];
        assert(ed == opened + td);
        assert(td.drop_last() =~= Seq::<SpecCanonicalStreamEvent>::empty());
        assert(streamed_text(td.drop_last(), c) == Seq::<char>::empty());
        assert(Seq::<char>::empty() + t =~= t);
        assert(streamed_text(td, c) == t);
        lemma_streamed_text_concat(opened, td, c);
    } else {
        assert(ed == Seq::<SpecCanonicalStreamEvent>::empty());
        assert(t =~= Seq::<char>::empty());
    }
    assert(Seq::<char>::empty() + Seq::<char>::empty() + t =~= t);
}

/// Over a run of OpenRouter chunks each carrying the one choice `c`, with no
/// tool calls and no finish reason, the text streamed for choice `c` is the
/// chunks' contents concatenated in order, whether or not earlier chunks
/// opened its message item.
pub proof fn law_openrouter_streamed_text_is_its_contents(
    st: SpecProjectorState,
    raws: Seq<ProviderRawStreamEvent>,
    c: u32,
)
    requires
        forall|j: int| 0 <= j < raws.len() ==> is_plain_chunk(#[trigger] raws[j], c),
    ensures
        streamed_text(spec_run(st, raws).1, c) == chunk_contents(raws),
    decreases raws.len(),
{
    if raws.len() > 0 {
        let init = raws.drop_last();
        assert forall|j: int| 0 <= j < init.len() implies is_plain_chunk(#[trigger] init[j], c) by {
            assert(init[j] == raws[j]);
        }
        law_openrouter_streamed_text_is_its_contents(st, init, c);
        let (s1, e1) = spec_run(st, init);
        assert(is_plain_chunk(raws[raws.len() - 1], c));
        lemma_plain_chunk_streams_content(s1, raws.last(), c);
        lemma_streamed_text_concat(e1, CanonicalStreamProjector::spec_step(s1, raws.last()).1, c);
    }
}

/// Whether `raw` is an Anthropic `content_block_delta` frame for block `i`
/// whose delta is an `input_json_delta` carrying a fragment.
pub open spec fn is_json_delta_frame(raw: ProviderRawStreamEvent, i: u32) -> bool {
    &&& raw.provider == ProviderKind::Anthropic
    &&& raw.spec_event_name() == Some("content_block_delta"@)
    &&& raw.spec_json() matches Some(v) && v.u32_at("index"@) == Some(i) && (v.get("delta"@) matches Some(d)
        && d.str_at("type"@) == Some("input_json_delta"@) && d.str_at("partial_json"@) is Some)
}

/// The fragment of tool input a JSON-delta frame carries.
pub open spec fn frame_fragment(raw: ProviderRawStreamEvent) -> Seq<char> {
    raw.spec_json()->0.get("delta"@)->0.str_at("partial_json"@)->0
}

/// The fragments of the frames, one after another.
pub open spec fn frame_fragments(raws: Seq<ProviderRawStreamEvent>) -> Seq<char>
    decreases raws.len(),
{
    if raws.len() == 0 {
        Seq::empty()
    } else {
        frame_fragments(raws.drop_last()) + frame_fragment(raws.last())
    }
}

/// The tool-use block `b` with `more` appended to its input text.
pub open spec fn with_more_input(b: SpecBlockState, more: Seq<char>) -> SpecBlockState {
    SpecBlockState::ToolCall {
        item_id: b->ToolCall_item_id,
        tool_call_id: b->ToolCall_tool_call_id,
        name: b->ToolCall_name,
        arguments: b->ToolCall_arguments + more,
    }
}

/// The step appends fragment `p` to the tool-use block open at `i` and yields
/// exactly one arguments delta carrying `p`, for that block's call.
pub open spec fn extends_tool_input(
    st: SpecProjectorState,
    res: (SpecProjectorState, Seq<SpecCanonicalStreamEvent>),
    i: u32,
    p: Seq<char>,
) -> bool {
    let b = st.anthropic_blocks[i];
    &&& res.0 == SpecProjectorState { anthropic_blocks: st.anthropic_blocks.insert(i, with_more_input(b, p)), ..st }
    &&& res.1 == seq![
        SpecCanonicalStreamEvent::ToolCallArgumentsDelta {
            output_index: i,
            tool_call_index: i,
            item_id: b->ToolCall_item_id,
            tool_call_id: b->ToolCall_tool_call_id,
            tool_name: Some(b->ToolCall_name),
            delta: p,
        },
    ]
}

/// An Anthropic `input_json_delta` frame for the tool-use block open at `i`
/// appends its fragment to that block's input and streams it, once, as an
/// arguments delta of the block's call; in both projectors.
pub proof fn law_anthropic_json_delta_extends_tool_input(st: SpecProjectorState, raw: ProviderRawStreamEvent, i: u32)
    requires
        is_json_delta_frame(raw, i),
        st.anthropic_blocks.contains_key(i),
        st.anthropic_blocks[i] is ToolCall,
    ensures
        extends_tool_input(st, CanonicalStreamProjector::spec_step(st, raw), i, frame_fragment(raw)),
        extends_tool_input(st, spec_family_step(st, raw.spec_event_name(), raw.spec_json()), i, frame_fragment(raw)),
{
    reveal_strlit("content_block_delta");
    reveal_strlit("content_block_start");
    reveal_strlit("message_start");
    reveal_strlit("text_delta");
    reveal_strlit("input_json_delta");
    assert("content_block_delta"@[14] != "content_block_start"@[14]);
    assert("content_block_delta"@[0] != "message_start"@[0]);
    assert("input_json_delta"@[0] != "text_delta"@[0]);
    assert("content_block_delta"@ != "content_block_start"@);
    assert("content_block_delta"@ != "message_start"@);
    assert("input_json_delta"@ != "text_delta"@);
    let v = raw.spec_json()->0;
    let r = spec_anthropic_block_delta(st, v);
    assert(spec_anthropic_step(st, Some("content_block_delta"@), Some(v)) == r);
    assert(spec_family_step(st, Some("content_block_delta"@), Some(v)) == r);
}

/// Over a run of `input_json_delta` frames for the tool-use block open at
/// `i`, the block stays open and its input grows by the frames' fragments,
/// concatenated in order; its call id and name stay as they were.
pub proof fn law_anthropic_tool_input_is_its_fragments(
    st: SpecProjectorState,
    raws: Seq<ProviderRawStreamEvent>,
    i: u32,
)
    requires
        forall|j: int| 0 <= j < raws.len() ==> is_json_delta_frame(#[trigger] raws[j], i),
        st.anthropic_blocks.contains_key(i),
        st.anthropic_blocks[i] is ToolCall,
    ensures
        spec_run(st, raws).0.anthropic_blocks.contains_key(i),
        spec_run(st, raws).0.anthropic_blocks[i] == with_more_input(st.anthropic_blocks[i], frame_fragments(raws)),
    decreases raws.len(),
{
    if raws.len() == 0 {
        let b = st.anthropic_blocks[i];
        assert(b->ToolCall_arguments + Seq::<char>::empty() =~= b->ToolCall_arguments);
    } else {
        let init = raws.drop_last();
        assert forall|j: int| 0 <= j < init.len() implies is_json_delta_frame(#[trigger] init[j], i) by {
            assert(init[j] == raws[j]);
        }
        law_anthropic_tool_input_is_its_fragments(st, init, i);
        let s1 = spec_run(st, init).0;
        assert(is_json_delta_frame(raws[raws.len() - 1], i));
        law_anthropic_json_delta_extends_tool_input(s1, raws.last(), i);
        let b = st.anthropic_blocks[i];
        assert(b->ToolCall_arguments + frame_fragments(init) + frame_fragment(raws.last()) =~= b->ToolCall_arguments
            + frame_fragments(raws));
    }
}

/// The completion a block that stops reports: a text block completes its
/// message; a tool-use block completes its call with the input it gathered.
pub open spec fn completion_of(i: u32, b: SpecBlockState) -> SpecCanonicalStreamEvent {
    SpecCanonicalStreamEvent::OutputItemCompleted {
        output_index: i,
        item: match b {
            SpecBlockState::Text { item_id } => SpecItemEnd::Message { item_id },
            SpecBlockState::ToolCall { item_id, tool_call_id, name, arguments } => SpecItemEnd::ToolCall {
                item_id,
                tool_call_id,
                name,
                arguments_json_text: arguments,
            },
        },
    }
}

/// An Anthropic `content_block_stop` frame for the block open at `i` closes
/// it and yields exactly its completion; in both projectors.
pub proof fn law_anthropic_block_stop_completes_it(
    st: SpecProjectorState,
    raw: ProviderRawStreamEvent,
    v: SpecJson,
    i: u32,
)
    requires
        raw.provider == ProviderKind::Anthropic,
        raw.spec_event_name() == Some("content_block_stop"@),
        raw.spec_json() == Some(v),
        v.u32_at("index"@) == Some(i),
        st.anthropic_blocks.contains_key(i),
    ensures
        CanonicalStreamProjector::spec_step(st, raw) == (
            SpecProjectorState { anthropic_blocks: st.anthropic_blocks.remove(i), ..st },
            seq![completion_of(i, st.anthropic_blocks[i])],
        ),
        spec_family_step(st, raw.spec_event_name(), raw.spec_json()) == CanonicalStreamProjector::spec_step(st, raw),
{
    reveal_strlit("content_block_delta");
    reveal_strlit("content_block_start");
    reveal_strlit("content_block_stop");
    reveal_strlit("message_start");
    assert("content_block_stop"@[16] != "content_block_start"@[16]);
    assert("content_block_stop"@[14] != "content_block_delta"@[14]);
    assert("content_block_stop"@[0] != "message_start"@[0]);
    assert("content_block_stop"@ != "content_block_start"@);
    assert("content_block_stop"@ != "content_block_delta"@);
    assert("content_block_stop"@ != "message_start"@);
    let r = spec_anthropic_block_stop(st, v);
    assert(spec_anthropic_step(st, Some("content_block_stop"@), Some(v)) == r);
    assert(spec_family_step(st, Some("content_block_stop"@), Some(v)) == r);
}

/// An OpenAI `response.output_text.delta` frame yields exactly one text delta
/// carrying its `delta`, at its output and content index (0 when absent) and
/// for its item; a `response.function_call_arguments.delta` frame yields
/// exactly one arguments delta carrying its `delta`, for the call at its
/// output index and for its item. Neither changes the state.
pub proof fn law_openai_deltas_stream_their_text(
    st: SpecProjectorState,
    raw: ProviderRawStreamEvent,
    v: SpecJson,
    delta: Seq<char>,
)
    requires
        raw.provider == ProviderKind::OpenAi || raw.provider == ProviderKind::GenericOpenAiCompatible,
        raw.spec_json() == Some(v),
        v.str_at("delta"@) == Some(delta),
    ensures
        v.str_at("type"@) == Some("response.output_text.delta"@) ==> CanonicalStreamProjector::spec_step(st, raw)
            == (
            st,
            seq![
                SpecCanonicalStreamEvent::TextDelta {
                    output_index: u32_or_zero(v.u32_at("output_index"@)),
                    content_index: u32_or_zero(v.u32_at("content_index"@)),
                    item_id: v.str_at("item_id"@),
                    delta,
                },
            ],
        ),
        v.str_at("type"@) == Some("response.function_call_arguments.delta"@) ==> CanonicalStreamProjector::spec_step(
            st,
            raw,
        ) == (
            st,
            seq![
                SpecCanonicalStreamEvent::ToolCallArgumentsDelta {
                    output_index: u32_or_zero(v.u32_at("output_index"@)),
                    tool_call_index: u32_or_zero(v.u32_at("output_index"@)),
                    item_id: v.str_at("item_id"@),
                    tool_call_id: None,
                    tool_name: None,
                    delta,
                },
            ],
        ),
{
    reveal_strlit("response.created");
    reveal_strlit("response.in_progress");
    reveal_strlit("response.output_item.added");
    reveal_strlit("response.output_text.delta");
    reveal_strlit("response.function_call_arguments.delta");
    let text = "response.output_text.delta"@;
    let args = "response.function_call_arguments.delta"@;
    assert(text[9] != "response.created"@[9]);
    assert(text[9] != "response.in_progress"@[9]);
    assert(text[16] != "response.output_item.added"@[16]);
    assert(args[9] != "response.created"@[9]);
    assert(args[9] != "response.in_progress"@[9]);
    assert(args[9] != "response.output_item.added"@[9]);
    assert(args[9] != text[9]);
    assert(text != "response.created"@);
    assert(text != "response.in_progress"@);
    assert(text != "response.output_item.added"@);
    assert(args != "response.created"@);
    assert(args != "response.in_progress"@);
    assert(args != "response.output_item.added"@);
    assert(args != text);
    assert(spec_openai_step(st, Some(v)) == CanonicalStreamProjector::spec_step(st, raw));
}

} // verus!
