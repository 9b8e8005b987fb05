//! The canonical stream projector: a per-stream state machine that turns raw
//! provider frames into provider-independent events.
use vstd::prelude::*;

use std::collections::BTreeMap;

use crate::json::{json_str, json_u32, json_u64, JsonValue, SpecJson};
use crate::json::opt_str_view;
use crate::stream::canonical::{
    events_view, CanonicalStreamEnvelope, CanonicalStreamEvent, SpecCanonicalStreamEvent,
    StreamOutputItemEnd, StreamOutputItemStart,
};
use crate::stream::raw::{ostr, ProviderRawStreamEvent, RawStreamPayload};
use crate::text::{owned, str_equal};
use crate::types::identity::ProviderKind;
use crate::types::message::MessageRole;
use crate::types::response::{or_zero, saturating_sum, FinishReason, Usage};

mod anthropic;
pub mod event_laws;
pub mod laws;
mod openai;
mod openrouter;

pub use anthropic::spec_anthropic_step;
pub use anthropic::{
    spec_anthropic_block_delta, spec_anthropic_block_stop, spec_anthropic_message_stop,
    spec_anthropic_open_block, spec_block_end, spec_start_response, spec_stream_failure,
};
use openrouter::{
    empty_tool_call, insert_pos, lemma_insert_pos, lemma_remaining_sorted, lemma_upsert_sorted,
    spec_openrouter_choice, spec_openrouter_choices, spec_openrouter_delta, spec_tool_call_delta,
    spec_tool_call_deltas, tc_completions, tc_lookup, tc_remaining, tc_upsert,
};
use openai::{spec_openai_completed, spec_openai_item_added, spec_openai_item_done};
use crate::stream::keys::lemma_u32_keys_totally_ordered;
pub use openai::spec_openai_step;
pub use openrouter::spec_openrouter_step;

verus! {

broadcast use vstd::std_specs::btree::group_btree_axioms;

/// Per-index state of an Anthropic content block that has started but not stopped.
#[derive(Debug)]
pub(crate) enum AnthropicBlockState {
    Text { item_id: Option<String> },
    ToolCall { item_id: Option<String>, tool_call_id: Option<String>, name: String, arguments: String },
}

/// Model of an Anthropic content block in flight.
pub enum SpecBlockState {
    Text { item_id: Option<Seq<char>> },
    ToolCall {
        item_id: Option<Seq<char>>,
        tool_call_id: Option<Seq<char>>,
        name: Seq<char>,
        arguments: Seq<char>,
    },
}

impl View for AnthropicBlockState {
    type V = SpecBlockState;

    closed spec fn view(&self) -> SpecBlockState {
        match self {
            AnthropicBlockState::Text { item_id } => SpecBlockState::Text { item_id: ostr(*item_id) },
            AnthropicBlockState::ToolCall { item_id, tool_call_id, name, arguments } =>
                SpecBlockState::ToolCall {
                item_id: ostr(*item_id),
                tool_call_id: ostr(*tool_call_id),
                name: name@,
                arguments: arguments@,
            },
        }
    }
}

impl SpecBlockState {
    pub open spec fn item_id(self) -> Option<Seq<char>> {
        match self {
            SpecBlockState::Text { item_id } => item_id,
            SpecBlockState::ToolCall { item_id, .. } => item_id,
        }
    }
}

impl AnthropicBlockState {
    /// The provider item id of the block.
    pub(crate) fn item_id(&self) -> (r: Option<String>)
        ensures
            ostr(r) == self@.item_id(),
    {
        match self {
            AnthropicBlockState::Text { item_id } => item_id.clone(),
            AnthropicBlockState::ToolCall { item_id, .. } => item_id.clone(),
        }
    }
}

/// An OpenRouter message item that has started.
#[derive(Debug)]
pub(crate) struct OpenRouterMessageState {
    pub(crate) item_id: Option<String>,
    pub(crate) completed: bool,
}

/// Model of an OpenRouter message item.
pub struct SpecMessageItemState {
    pub item_id: Option<Seq<char>>,
    pub completed: bool,
}

impl View for OpenRouterMessageState {
    type V = SpecMessageItemState;

    closed spec fn view(&self) -> SpecMessageItemState {
        SpecMessageItemState { item_id: ostr(self.item_id), completed: self.completed }
    }
}

/// An OpenRouter tool call being assembled from deltas.
#[derive(Debug)]
pub(crate) struct OpenRouterToolCallState {
    pub(crate) item_id: Option<String>,
    pub(crate) tool_call_id: Option<String>,
    pub(crate) name: Option<String>,
    pub(crate) arguments: String,
}

/// Model of an OpenRouter tool call being assembled.
pub struct SpecToolCallState {
    pub item_id: Option<Seq<char>>,
    pub tool_call_id: Option<Seq<char>>,
    pub name: Option<Seq<char>>,
    pub arguments: Seq<char>,
}

impl View for OpenRouterToolCallState {
    type V = SpecToolCallState;

    closed spec fn view(&self) -> SpecToolCallState {
        SpecToolCallState {
            item_id: ostr(self.item_id),
            tool_call_id: ostr(self.tool_call_id),
            name: ostr(self.name),
            arguments: self.arguments@,
        }
    }
}

/// Key of an OpenRouter tool call: (choice index, tool call index).
pub type ToolCallKey = (u32, u32);

/// Lexicographic order on tool call keys.
pub open spec fn key_before(a: ToolCallKey, b: ToolCallKey) -> bool {
    a.0 < b.0 || (a.0 == b.0 && a.1 < b.1)
}

/// Tool call entries are strictly increasing by key.
pub open spec fn keys_increasing(entries: Seq<(ToolCallKey, SpecToolCallState)>) -> bool {
    forall|i: int, j: int| 0 <= i < j < entries.len() ==> key_before(#[trigger] entries[i].0, #[trigger] entries[j].0)
}

/// Model of the whole projector state.
pub struct SpecProjectorState {
    pub response_started: bool,
    pub completed: bool,
    pub anthropic_stop_reason: Option<FinishReason>,
    pub anthropic_blocks: Map<u32, SpecBlockState>,
    pub openrouter_message_items: Map<u32, SpecMessageItemState>,
    pub openrouter_tool_calls: Seq<(ToolCallKey, SpecToolCallState)>,
}

/// Stateful projector from raw provider frames to canonical events.
#[derive(Debug)]
pub struct CanonicalStreamProjector {
    pub(crate) response_started: bool,
    pub(crate) completed: bool,
    pub(crate) anthropic_stop_reason: Option<FinishReason>,
    pub(crate) anthropic_blocks: BTreeMap<u32, AnthropicBlockState>,
    pub(crate) openrouter_message_items: BTreeMap<u32, OpenRouterMessageState>,
    /// Tool calls in flight, kept in increasing key order.
    pub(crate) openrouter_tool_calls: Vec<(ToolCallKey, OpenRouterToolCallState)>,
}

impl View for CanonicalStreamProjector {
    type V = SpecProjectorState;

    closed spec fn view(&self) -> SpecProjectorState {
        SpecProjectorState {
            response_started: self.response_started,
            completed: self.completed,
            anthropic_stop_reason: self.anthropic_stop_reason,
            anthropic_blocks: self.anthropic_blocks@.map_values(|b: AnthropicBlockState| b@),
            openrouter_message_items: self.openrouter_message_items@.map_values(
                |m: OpenRouterMessageState| m@,
            ),
            openrouter_tool_calls: self.openrouter_tool_calls@.map_values(
                |e: (ToolCallKey, OpenRouterToolCallState)| (e.0, e.1@),
            ),
        }
    }
}

impl SpecProjectorState {
    /// The state a projector starts in.
    pub open spec fn initial() -> SpecProjectorState {
        SpecProjectorState {
            response_started: false,
            completed: false,
            anthropic_stop_reason: None,
            anthropic_blocks: Map::empty(),
            openrouter_message_items: Map::empty(),
            openrouter_tool_calls: Seq::empty(),
        }
    }

    /// The internal invariant: tool calls in flight are kept in key order.
    pub open spec fn wf(self) -> bool {
        keys_increasing(self.openrouter_tool_calls)
    }
}

impl CanonicalStreamProjector {
    /// The projector's internal invariant.
    pub open spec fn wf(&self) -> bool {
        self@.wf()
    }

    /// Whether the response start has been reported.
    pub(crate) fn is_response_started(&self) -> (r: bool)
        ensures
            r == self@.response_started,
    {
        self.response_started
    }

    /// A projector in its initial state.
    pub fn new() -> (r: Self)
        ensures
            r@ == SpecProjectorState::initial(),
            r.wf(),
    {
        let r = CanonicalStreamProjector {
            response_started: false,
            completed: false,
            anthropic_stop_reason: None,
            anthropic_blocks: BTreeMap::new(),
            openrouter_message_items: BTreeMap::new(),
            openrouter_tool_calls: Vec::new(),
        };
        assert(r@.anthropic_blocks =~= Map::empty());
        assert(r@.openrouter_message_items =~= Map::empty());
        assert(r@.openrouter_tool_calls =~= Seq::empty());
        r
    }
}

impl Default for CanonicalStreamProjector {
    fn default() -> (r: Self)
        ensures
            r@ == SpecProjectorState::initial(),
            r.wf(),
    {
        CanonicalStreamProjector::new()
    }
}

/// Executable form of `key_before`.
fn key_lt(a: ToolCallKey, b: ToolCallKey) -> (r: bool)
    ensures
        r == key_before(a, b),
{
    a.0 < b.0 || (a.0 == b.0 && a.1 < b.1)
}

impl OpenRouterToolCallState {
    /// A field-by-field copy.
    fn copy(&self) -> (r: Self)
        ensures
            r@ == self@,
    {
        OpenRouterToolCallState {
            item_id: self.item_id.clone(),
            tool_call_id: self.tool_call_id.clone(),
            name: self.name.clone(),
            arguments: self.arguments.clone(),
        }
    }
}

/// A `u32` member, or zero.
pub open spec fn u32_or_zero(o: Option<u32>) -> u32 {
    match o {
        Some(x) => x,
        None => 0,
    }
}

/// `o.get(key)` lifted over an optional document.
pub open spec fn opt_get(o: Option<SpecJson>, key: Seq<char>) -> Option<SpecJson> {
    match o {
        Some(v) => v.get(key),
        None => None,
    }
}

/// `o.str_at(key)` lifted over an optional document.
pub open spec fn opt_str_at(o: Option<SpecJson>, key: Seq<char>) -> Option<Seq<char>> {
    match o {
        Some(v) => v.str_at(key),
        None => None,
    }
}

/// The failure message of an error frame: `error.message`, else `message`.
pub open spec fn spec_error_message(v: SpecJson) -> Option<Seq<char>> {
    match opt_str_at(v.get("error"@), "message"@) {
        Some(m) => Some(m),
        None => v.str_at("message"@),
    }
}

/// The canonical role named by a role string.
pub open spec fn spec_parse_message_role(role: Option<Seq<char>>) -> Option<MessageRole> {
    match role {
        Some(r) => if r == "system"@ {
            Some(MessageRole::System)
        } else if r == "user"@ {
            Some(MessageRole::User)
        } else if r == "assistant"@ {
            Some(MessageRole::Assistant)
        } else if r == "tool"@ {
            Some(MessageRole::Tool)
        } else {
            None
        },
        None => None,
    }
}

/// The canonical finish reason named by a provider finish/stop reason.
pub open spec fn spec_parse_finish_reason(reason: Option<Seq<char>>) -> Option<FinishReason> {
    match reason {
        Some(r) => if r == "stop"@ || r == "end_turn"@ {
            Some(FinishReason::Stop)
        } else if r == "length"@ || r == "max_tokens"@ {
            Some(FinishReason::Length)
        } else if r == "tool_calls"@ || r == "tool_use"@ {
            Some(FinishReason::ToolCalls)
        } else if r == "content_filter"@ {
            Some(FinishReason::ContentFilter)
        } else if r == "error"@ {
            Some(FinishReason::Error)
        } else {
            Some(FinishReason::Other)
        },
        None => None,
    }
}

/// Usage read from an OpenAI Responses `usage` object.
pub open spec fn spec_openai_usage(v: SpecJson) -> Usage {
    Usage {
        input_tokens: v.u64_at("input_tokens"@),
        output_tokens: v.u64_at("output_tokens"@),
        cached_input_tokens: match v.get("input_tokens_details"@) {
            Some(d) => d.u64_at("cached_tokens"@),
            None => None,
        },
        total_tokens: v.u64_at("total_tokens"@),
    }
}

/// Usage read from an Anthropic streaming `usage` object: cached input is the
/// saturating sum of cache reads and cache creation, and no total is reported.
pub open spec fn spec_anthropic_stream_usage(v: SpecJson) -> Usage {
    Usage {
        input_tokens: v.u64_at("input_tokens"@),
        output_tokens: v.u64_at("output_tokens"@),
        cached_input_tokens: Some(
            saturating_sum(
                or_zero(v.u64_at("cache_read_input_tokens"@)),
                or_zero(v.u64_at("cache_creation_input_tokens"@)),
            ),
        ),
        total_tokens: None,
    }
}

/// Usage read from an OpenRouter chat-completions `usage` object.
pub open spec fn spec_openrouter_usage(v: SpecJson) -> Usage {
    Usage {
        input_tokens: v.u64_at("prompt_tokens"@),
        output_tokens: v.u64_at("completion_tokens"@),
        cached_input_tokens: match v.get("prompt_tokens_details"@) {
            Some(d) => d.u64_at("cached_tokens"@),
            None => None,
        },
        total_tokens: v.u64_at("total_tokens"@),
    }
}

/// Whether an OpenAI response's `output` array holds a `function_call` item.
pub open spec fn spec_has_function_call(response: SpecJson) -> bool {
    match response.get("output"@) {
        Some(out) => match out.as_array() {
            Some(items) => exists|i: int|
                0 <= i < items.len() && (#[trigger] items[i]).str_at("type"@) == Some(
                    "function_call"@,
                ),
            None => false,
        },
        None => false,
    }
}

/// The finish reason of a completed OpenAI response.
pub open spec fn spec_infer_openai_finish_reason(response: SpecJson) -> FinishReason {
    if spec_has_function_call(response) {
        FinishReason::ToolCalls
    } else {
        FinishReason::Stop
    }
}

/// An optional borrowed string as an owned one.
pub fn to_owned_opt(o: Option<&str>) -> (r: Option<String>)
    ensures
        ostr(r) == crate::json::opt_str_view(o),
{
    match o {
        Some(s) => Some(owned(s)),
        None => None,
    }
}

/// The canonical role named by a role string.
pub fn parse_message_role(role: Option<&str>) -> (r: Option<MessageRole>)
    ensures
        r == spec_parse_message_role(crate::json::opt_str_view(role)),
{
    match role {
        Some(s) => if str_equal(s, "system") {
            Some(MessageRole::System)
        } else if str_equal(s, "user") {
            Some(MessageRole::User)
        } else if str_equal(s, "assistant") {
            Some(MessageRole::Assistant)
        } else if str_equal(s, "tool") {
            Some(MessageRole::Tool)
        } else {
            None
        },
        None => None,
    }
}

/// The canonical finish reason named by a provider finish/stop reason.
pub fn parse_finish_reason(reason: Option<&str>) -> (r: Option<FinishReason>)
    ensures
        r == spec_parse_finish_reason(crate::json::opt_str_view(reason)),
{
    match reason {
        Some(s) => if str_equal(s, "stop") || str_equal(s, "end_turn") {
            Some(FinishReason::Stop)
        } else if str_equal(s, "length") || str_equal(s, "max_tokens") {
            Some(FinishReason::Length)
        } else if str_equal(s, "tool_calls") || str_equal(s, "tool_use") {
            Some(FinishReason::ToolCalls)
        } else if str_equal(s, "content_filter") {
            Some(FinishReason::ContentFilter)
        } else if str_equal(s, "error") {
            Some(FinishReason::Error)
        } else {
            Some(FinishReason::Other)
        },
        None => None,
    }
}

/// Usage read from an OpenAI Responses `usage` object.
pub fn parse_openai_usage(value: &JsonValue) -> (r: Option<Usage>)
    ensures
        r == Some(spec_openai_usage(value@)),
{
    Some(
        Usage {
            input_tokens: json_u64(value, "input_tokens"),
            output_tokens: json_u64(value, "output_tokens"),
            cached_input_tokens: match value.get("input_tokens_details") {
                Some(d) => json_u64(d, "cached_tokens"),
                None => None,
            },
            total_tokens: json_u64(value, "total_tokens"),
        },
    )
}

/// Usage read from an Anthropic streaming `usage` object.
pub fn parse_anthropic_usage(value: &JsonValue) -> (r: Option<Usage>)
    ensures
        r == Some(spec_anthropic_stream_usage(value@)),
{
    let read = match json_u64(value, "cache_read_input_tokens") {
        Some(x) => x,
        None => 0,
    };
    let creation = match json_u64(value, "cache_creation_input_tokens") {
        Some(x) => x,
        None => 0,
    };
    Some(
        Usage {
            input_tokens: json_u64(value, "input_tokens"),
            output_tokens: json_u64(value, "output_tokens"),
            cached_input_tokens: Some(read.saturating_add(creation)),
            total_tokens: None,
        },
    )
}

/// Usage read from an OpenRouter chat-completions `usage` object.
pub fn parse_openrouter_usage(value: &JsonValue) -> (r: Option<Usage>)
    ensures
        r == Some(spec_openrouter_usage(value@)),
{
    Some(
        Usage {
            input_tokens: json_u64(value, "prompt_tokens"),
            output_tokens: json_u64(value, "completion_tokens"),
            cached_input_tokens: match value.get("prompt_tokens_details") {
                Some(d) => json_u64(d, "cached_tokens"),
                None => None,
            },
            total_tokens: json_u64(value, "total_tokens"),
        },
    )
}

/// `ToolCalls` when the response's output holds a function call, else `Stop`.
pub fn infer_openai_finish_reason(response: &JsonValue) -> (r: FinishReason)
    ensures
        r == spec_infer_openai_finish_reason(response@),
{
    let items = match response.get("output") {
        Some(out) => match out.as_array() {
            Some(items) => items,
            None => {
                return FinishReason::Stop;
            },
        },
        None => {
            return FinishReason::Stop;
        },
    };
    let ghost sitems = response@.get("output"@).unwrap().as_array().unwrap();
    let mut i: usize = 0;
    while i < items.len()
        invariant
            sitems == Seq::new(items.len() as nat, |k: int| items@[k]@),
            response@.get("output"@) matches Some(o) && o.as_array() == Some(sitems),
            i <= items.len(),
            forall|k: int| 0 <= k < i ==> (#[trigger] sitems[k]).str_at("type"@) != Some("function_call"@),
        decreases items.len() - i,
    {
        match json_str(&items[i], "type") {
            Some(t) => if str_equal(t, "function_call") {
                assert(sitems[i as int].str_at("type"@) == Some("function_call"@));
                return FinishReason::ToolCalls;
            },
            None => {},
        }
        i = i + 1;
    }
    FinishReason::Stop
}

/// The failure message of an error frame: `error.message`, else `message`.
pub fn error_message<'a>(value: &'a JsonValue) -> (r: Option<&'a str>)
    ensures
        crate::json::opt_str_view(r) == spec_error_message(value@),
{
    match value.get("error") {
        Some(e) => match json_str(e, "message") {
            Some(m) => {
                return Some(m);
            },
            None => {},
        },
        None => {},
    }
    json_str(value, "message")
}

/// Whether an optional type tag equals `lit`.
pub fn kind_is(kind: Option<&str>, lit: &str) -> (r: bool)
    ensures
        r == (opt_str_view(kind) == Some(lit@)),
{
    match kind {
        Some(k) => str_equal(k, lit),
        None => false,
    }
}

/// A `u32` member, or zero.
fn u32_or_zero_exec(o: Option<u32>) -> (r: u32)
    ensures
        r == u32_or_zero(o),
{
    match o {
        Some(x) => x,
        None => 0,
    }
}

/// The event for an OpenAI `response.output_item.added` frame.
fn openai_item_added(value: &JsonValue) -> (r: Vec<CanonicalStreamEvent>)
    ensures
        events_view(r@) == spec_openai_item_added(value@),
{
    let mut events: Vec<CanonicalStreamEvent> = Vec::new();
    match (json_u32(value, "output_index"), value.get("item")) {
        (Some(output_index), Some(item)) => {
            let kind = json_str(item, "type");
            if kind_is(kind, "message") {
                let role = match parse_message_role(json_str(item, "role")) {
                    Some(role) => role,
                    None => MessageRole::Assistant,
                };
                events.push(
                    CanonicalStreamEvent::OutputItemStarted {
                        output_index,
                        item: StreamOutputItemStart::Message {
                            item_id: to_owned_opt(json_str(item, "id")),
                            role,
                        },
                    },
                );
            } else if kind_is(kind, "function_call") {
                match json_str(item, "name") {
                    Some(name) => {
                        events.push(
                            CanonicalStreamEvent::OutputItemStarted {
                                output_index,
                                item: StreamOutputItemStart::ToolCall {
                                    item_id: to_owned_opt(json_str(item, "id")),
                                    tool_call_id: to_owned_opt(json_str(item, "call_id")),
                                    name: owned(name),
                                },
                            },
                        );
                    },
                    None => {},
                }
            }
        },
        _ => {},
    }
    assert(events_view(events@) =~= spec_openai_item_added(value@));
    events
}

/// The event for an OpenAI `response.output_item.done` frame.
fn openai_item_done(value: &JsonValue) -> (r: Vec<CanonicalStreamEvent>)
    ensures
        events_view(r@) == spec_openai_item_done(value@),
{
    let mut events: Vec<CanonicalStreamEvent> = Vec::new();
    match (json_u32(value, "output_index"), value.get("item")) {
        (Some(output_index), Some(item)) => {
            let kind = json_str(item, "type");
            if kind_is(kind, "message") {
                events.push(
                    CanonicalStreamEvent::OutputItemCompleted {
                        output_index,
                        item: StreamOutputItemEnd::Message { item_id: to_owned_opt(json_str(item, "id")) },
                    },
                );
            } else if kind_is(kind, "function_call") {
                match json_str(item, "name") {
                    Some(name) => {
                        let arguments = match json_str(item, "arguments") {
                            Some(a) => owned(a),
                            None => String::new(),
                        };
                        events.push(
                            CanonicalStreamEvent::OutputItemCompleted {
                                output_index,
                                item: StreamOutputItemEnd::ToolCall {
                                    item_id: to_owned_opt(json_str(item, "id")),
                                    tool_call_id: to_owned_opt(json_str(item, "call_id")),
                                    name: owned(name),
                                    arguments_json_text: arguments,
                                },
                            },
                        );
                    },
                    None => {},
                }
            }
        },
        _ => {},
    }
    assert(events_view(events@) =~= spec_openai_item_done(value@));
    events
}

impl CanonicalStreamProjector {
    fn project_openai(&mut self, raw: &ProviderRawStreamEvent) -> (r: Vec<CanonicalStreamEvent>)
        requires
            old(self).wf(),
        ensures
            final(self).wf(),
            (final(self)@, events_view(r@)) == spec_openai_step(old(self)@, raw.spec_json()),
    {
        let value = match raw.json() {
            Some(v) => v,
            None => {
                let empty: Vec<CanonicalStreamEvent> = Vec::new();
                assert(events_view(empty@) =~= Seq::empty());
                return empty;
            },
        };
        let mut events: Vec<CanonicalStreamEvent> = Vec::new();
        let kind = json_str(value, "type");
        if kind_is(kind, "response.created") || kind_is(kind, "response.in_progress") {
            if !self.response_started {
                self.response_started = true;
                let (model, response_id) = match value.get("response") {
                    Some(response) => (
                        to_owned_opt(json_str(response, "model")),
                        to_owned_opt(json_str(response, "id")),
                    ),
                    None => (None, None),
                };
                events.push(CanonicalStreamEvent::ResponseStarted { model, response_id });
            }
        } else if kind_is(kind, "response.output_item.added") {
            events = openai_item_added(value);
        } else if kind_is(kind, "response.output_text.delta") {
            match json_str(value, "delta") {
                Some(delta) => {
                    events.push(
                        CanonicalStreamEvent::TextDelta {
                            output_index: u32_or_zero_exec(json_u32(value, "output_index")),
                            content_index: u32_or_zero_exec(json_u32(value, "content_index")),
                            item_id: to_owned_opt(json_str(value, "item_id")),
                            delta: owned(delta),
                        },
                    );
                },
                None => {},
            }
        } else if kind_is(kind, "response.function_call_arguments.delta") {
            match json_str(value, "delta") {
                Some(delta) => {
                    let output_index = u32_or_zero_exec(json_u32(value, "output_index"));
                    events.push(
                        CanonicalStreamEvent::ToolCallArgumentsDelta {
                            output_index,
                            tool_call_index: output_index,
                            item_id: to_owned_opt(json_str(value, "item_id")),
                            tool_call_id: None,
                            tool_name: None,
                            delta: owned(delta),
                        },
                    );
                },
                None => {},
            }
        } else if kind_is(kind, "response.output_item.done") {
            events = openai_item_done(value);
        } else if kind_is(kind, "response.completed") {
            events = self.openai_completed(value);
        } else if kind_is(kind, "error") {
            match error_message(value) {
                Some(message) => {
                    self.completed = true;
                    events.push(CanonicalStreamEvent::Failed { message: owned(message) });
                },
                None => {},
            }
        }
        assert(events_view(events@) =~= spec_openai_step(old(self)@, raw.spec_json()).1);
        events
    }

    fn project_anthropic(&mut self, raw: &ProviderRawStreamEvent) -> (r: Vec<CanonicalStreamEvent>)
        requires
            old(self).wf(),
        ensures
            final(self).wf(),
            (final(self)@, events_view(r@)) == spec_anthropic_step(
                old(self)@,
                raw.spec_event_name(),
                raw.spec_json(),
            ),
    {
        let value = match raw.json() {
            Some(v) => v,
            None => {
                let empty: Vec<CanonicalStreamEvent> = Vec::new();
                assert(events_view(empty@) =~= Seq::empty());
                return empty;
            },
        };
        let name = raw.sse_event_name();
        if kind_is(name, "message_start") {
            let (model, response_id) = match value.get("message") {
                Some(message) => (
                    to_owned_opt(json_str(message, "model")),
                    to_owned_opt(json_str(message, "id")),
                ),
                None => (None, None),
            };
            self.start_response(model, response_id)
        } else if kind_is(name, "content_block_start") {
            match (json_u32(value, "index"), value.get("content_block")) {
                (Some(index), Some(block)) => self.anthropic_open_block(index, block),
                _ => {
                    let empty: Vec<CanonicalStreamEvent> = Vec::new();
                    assert(events_view(empty@) =~= Seq::empty());
                    empty
                },
            }
        } else if kind_is(name, "content_block_delta") {
            self.anthropic_block_delta(value)
        } else if kind_is(name, "content_block_stop") {
            self.anthropic_block_stop(value)
        } else if kind_is(name, "message_delta") {
            let mut events: Vec<CanonicalStreamEvent> = Vec::new();
            match value.get("usage") {
                Some(u) => match parse_anthropic_usage(u) {
                    Some(usage) => {
                        events.push(CanonicalStreamEvent::UsageUpdated { usage });
                    },
                    None => {},
                },
                None => {},
            }
            match value.get("delta") {
                Some(d) => {
                    self.anthropic_stop_reason = parse_finish_reason(json_str(d, "stop_reason"));
                },
                None => {},
            }
            assert(events_view(events@) =~= spec_anthropic_step(
                old(self)@,
                raw.spec_event_name(),
                raw.spec_json(),
            ).1);
            events
        } else if kind_is(name, "message_stop") {
            self.anthropic_message_stop()
        } else if kind_is(name, "error") {
            self.fail_stream(value)
        } else {
            let empty: Vec<CanonicalStreamEvent> = Vec::new();
            assert(events_view(empty@) =~= Seq::empty());
            empty
        }
    }

    /// Reports the start of the response, once per stream.
    pub(crate) fn start_response(&mut self, model: Option<String>, response_id: Option<String>) -> (r:
        Vec<CanonicalStreamEvent>)
        requires
            old(self).wf(),
        ensures
            final(self).wf(),
            (final(self)@, events_view(r@)) == spec_start_response(
                old(self)@,
                ostr(model),
                ostr(response_id),
            ),
    {
        let mut events: Vec<CanonicalStreamEvent> = Vec::new();
        if !self.response_started {
            self.response_started = true;
            events.push(CanonicalStreamEvent::ResponseStarted { model, response_id });
        }
        assert(events_view(events@) =~= spec_start_response(
            old(self)@,
            ostr(model),
            ostr(response_id),
        ).1);
        events
    }

    /// Records the stop reason reported by a `message_delta`.
    pub(crate) fn anthropic_set_stop_reason(&mut self, reason: Option<FinishReason>)
        requires
            old(self).wf(),
        ensures
            final(self).wf(),
            final(self)@ == (SpecProjectorState { anthropic_stop_reason: reason, ..old(self)@ }),
    {
        self.anthropic_stop_reason = reason;
    }

    /// Completes the stream on `message_stop`, once.
    pub(crate) fn anthropic_message_stop(&mut self) -> (r: Vec<CanonicalStreamEvent>)
        requires
            old(self).wf(),
        ensures
            final(self).wf(),
            (final(self)@, events_view(r@)) == spec_anthropic_message_stop(old(self)@),
    {
        let mut events: Vec<CanonicalStreamEvent> = Vec::new();
        if !self.completed {
            self.completed = true;
            let finish_reason = match self.anthropic_stop_reason {
                Some(r) => r,
                None => FinishReason::Other,
            };
            events.push(CanonicalStreamEvent::Completed { finish_reason });
        }
        assert(events_view(events@) =~= spec_anthropic_message_stop(old(self)@).1);
        events
    }

    /// Fails the stream with the message of an error frame, when it has one.
    pub(crate) fn fail_stream(&mut self, value: &JsonValue) -> (r: Vec<CanonicalStreamEvent>)
        requires
            old(self).wf(),
        ensures
            final(self).wf(),
            (final(self)@, events_view(r@)) == spec_stream_failure(old(self)@, value@),
    {
        let mut events: Vec<CanonicalStreamEvent> = Vec::new();
        match error_message(value) {
            Some(message) => {
                self.completed = true;
                events.push(CanonicalStreamEvent::Failed { message: owned(message) });
            },
            None => {},
        }
        assert(events_view(events@) =~= spec_stream_failure(old(self)@, value@).1);
        events
    }

    /// Opens the content block `block` at `index`.
    pub(crate) fn anthropic_open_block(&mut self, index: u32, block: &JsonValue) -> (r: Vec<
        CanonicalStreamEvent,
    >)
        requires
            old(self).wf(),
        ensures
            final(self).wf(),
            (final(self)@, events_view(r@)) == spec_anthropic_open_block(old(self)@, index, block@),
    {
        proof {
            lemma_u32_keys_totally_ordered();
        }
        let mut events: Vec<CanonicalStreamEvent> = Vec::new();
        let kind = json_str(block, "type");
        if kind_is(kind, "text") {
            let b = AnthropicBlockState::Text { item_id: None };
            assert(b@ == SpecBlockState::Text { item_id: None });
            self.anthropic_blocks.insert(index, b);
            events.push(
                CanonicalStreamEvent::OutputItemStarted {
                    output_index: index,
                    item: StreamOutputItemStart::Message { item_id: None, role: MessageRole::Assistant },
                },
            );
            assert(self@.anthropic_blocks =~= old(self)@.anthropic_blocks.insert(index, b@));
        } else if kind_is(kind, "tool_use") {
            let name = match json_str(block, "name") {
                Some(n) => owned(n),
                None => String::new(),
            };
            let tool_call_id = to_owned_opt(json_str(block, "id"));
            let b = AnthropicBlockState::ToolCall {
                item_id: None,
                tool_call_id: tool_call_id.clone(),
                name: name.clone(),
                arguments: String::new(),
            };
            let ghost bv = b@;
            self.anthropic_blocks.insert(index, b);
            events.push(
                CanonicalStreamEvent::OutputItemStarted {
                    output_index: index,
                    item: StreamOutputItemStart::ToolCall { item_id: None, tool_call_id, name },
                },
            );
            assert(self@.anthropic_blocks =~= old(self)@.anthropic_blocks.insert(index, bv));
        }
        assert(events_view(events@) =~= spec_anthropic_open_block(old(self)@, index, block@).1);
        events
    }

    pub(crate) fn anthropic_block_delta(&mut self, value: &JsonValue) -> (r: Vec<CanonicalStreamEvent>)
        requires
            old(self).wf(),
        ensures
            final(self).wf(),
            (final(self)@, events_view(r@)) == spec_anthropic_block_delta(old(self)@, value@),
    {
        proof {
            lemma_u32_keys_totally_ordered();
        }
        let mut events: Vec<CanonicalStreamEvent> = Vec::new();
        match (json_u32(value, "index"), value.get("delta")) {
            (Some(index), Some(delta)) => {
                let kind = json_str(delta, "type");
                if kind_is(kind, "text_delta") {
                    match json_str(delta, "text") {
                        Some(text) => {
                            let item_id = match self.anthropic_blocks.get(&index) {
                                Some(b) => b.item_id(),
                                None => None,
                            };
                            events.push(
                                CanonicalStreamEvent::TextDelta {
                                    output_index: index,
                                    content_index: 0,
                                    item_id,
                                    delta: owned(text),
                                },
                            );
                        },
                        None => {},
                    }
                } else if kind_is(kind, "input_json_delta") {
                    match json_str(delta, "partial_json") {
                        Some(partial) => {
                            match self.anthropic_blocks.remove(&index) {
                                Some(AnthropicBlockState::ToolCall { item_id, tool_call_id, name, arguments }) => {
                                    let mut arguments = arguments;
                                    arguments.append(partial);
                                    events.push(
                                        CanonicalStreamEvent::ToolCallArgumentsDelta {
                                            output_index: index,
                                            tool_call_index: index,
                                            item_id: item_id.clone(),
                                            tool_call_id: tool_call_id.clone(),
                                            tool_name: Some(name.clone()),
                                            delta: owned(partial),
                                        },
                                    );
                                    let b = AnthropicBlockState::ToolCall { item_id, tool_call_id, name, arguments };
                                    let ghost bv = b@;
                                    self.anthropic_blocks.insert(index, b);
                                    assert(self@.anthropic_blocks =~= old(self)@.anthropic_blocks.insert(index, bv));
                                },
                                Some(other) => {
                                    let ghost ov = other@;
                                    self.anthropic_blocks.insert(index, other);
                                    assert(self.anthropic_blocks@ =~= old(self).anthropic_blocks@);
                                    assert(self@.anthropic_blocks =~= old(self)@.anthropic_blocks);
                                },
                                None => {
                                    assert(self.anthropic_blocks@ =~= old(self).anthropic_blocks@);
                                    assert(self@.anthropic_blocks =~= old(self)@.anthropic_blocks);
                                },
                            }
                        },
                        None => {},
                    }
                }
            },
            _ => {},
        }
        assert(events_view(events@) =~= spec_anthropic_block_delta(old(self)@, value@).1);
        events
    }

    pub(crate) fn anthropic_block_stop(&mut self, value: &JsonValue) -> (r: Vec<CanonicalStreamEvent>)
        requires
            old(self).wf(),
        ensures
            final(self).wf(),
            (final(self)@, events_view(r@)) == spec_anthropic_block_stop(old(self)@, value@),
    {
        proof {
            lemma_u32_keys_totally_ordered();
        }
        let mut events: Vec<CanonicalStreamEvent> = Vec::new();
        match json_u32(value, "index") {
            Some(index) => match self.anthropic_blocks.remove(&index) {
                Some(block) => {
                    let ghost bv = block@;
                    let item = match block {
                        AnthropicBlockState::Text { item_id } => StreamOutputItemEnd::Message { item_id },
                        AnthropicBlockState::ToolCall { item_id, tool_call_id, name, arguments } =>
                            StreamOutputItemEnd::ToolCall {
                            item_id,
                            tool_call_id,
                            name,
                            arguments_json_text: arguments,
                        },
                    };
                    assert(item@ == spec_block_end(bv));
                    events.push(CanonicalStreamEvent::OutputItemCompleted { output_index: index, item });
                    assert(self@.anthropic_blocks =~= old(self)@.anthropic_blocks.remove(index));
                },
                None => {
                    assert(self.anthropic_blocks@ =~= old(self).anthropic_blocks@);
                    assert(self@.anthropic_blocks =~= old(self)@.anthropic_blocks);
                },
            },
            None => {},
        }
        assert(events_view(events@) =~= spec_anthropic_block_stop(old(self)@, value@).1);
        events
    }

    fn project_openrouter(&mut self, raw: &ProviderRawStreamEvent) -> (r: Vec<CanonicalStreamEvent>)
        requires
            old(self).wf(),
        ensures
            final(self).wf(),
            (final(self)@, events_view(r@)) == spec_openrouter_step(old(self)@, raw.payload@),
    {
        let mut events: Vec<CanonicalStreamEvent> = Vec::new();
        match &raw.payload {
            RawStreamPayload::Done => {
                if !self.completed {
                    self.completed = true;
                    events.push(CanonicalStreamEvent::Completed { finish_reason: FinishReason::Other });
                }
            },
            RawStreamPayload::Json { value } => {
                if !self.response_started {
                    self.response_started = true;
                    events.push(
                        CanonicalStreamEvent::ResponseStarted {
                            model: to_owned_opt(json_str(value, "model")),
                            response_id: to_owned_opt(json_str(value, "id")),
                        },
                    );
                }
                match value.get("usage") {
                    Some(u) => match parse_openrouter_usage(u) {
                        Some(usage) => {
                            events.push(CanonicalStreamEvent::UsageUpdated { usage });
                        },
                        None => {},
                    },
                    None => {},
                }
                let ghost s1 = self@;
                let ghost e12 = events_view(events@);
                match value.get("choices") {
                    Some(c) => match c.as_array() {
                        Some(choices) => {
                            let mut more = self.openrouter_choices(choices);
                            let ghost mv = events_view(more@);
                            events.append(&mut more);
                            assert(events_view(events@) =~= e12 + mv);
                        },
                        None => {
                            assert(spec_openrouter_choices(s1, seq![]) == (s1, Seq::<SpecCanonicalStreamEvent>::empty()));
                            assert(e12 + Seq::<SpecCanonicalStreamEvent>::empty() =~= e12);
                        },
                    },
                    None => {
                        assert(spec_openrouter_choices(s1, seq![]) == (s1, Seq::<SpecCanonicalStreamEvent>::empty()));
                        assert(e12 + Seq::<SpecCanonicalStreamEvent>::empty() =~= e12);
                    },
                }
            },
            _ => {},
        }
        assert(events_view(events@) =~= spec_openrouter_step(old(self)@, raw.payload@).1);
        events
    }

    /// Position of `key` among the tool calls in flight, or where it would be inserted.
    fn tool_call_position(&self, key: ToolCallKey) -> (p: usize)
        requires
            self.wf(),
        ensures
            p as int == insert_pos(self@.openrouter_tool_calls, key, 0),
            p <= self.openrouter_tool_calls.len(),
    {
        let n = self.openrouter_tool_calls.len();
        let ghost es = self@.openrouter_tool_calls;
        let mut i: usize = 0;
        while i < n && key_lt(self.openrouter_tool_calls[i].0, key)
            invariant
                n == self.openrouter_tool_calls.len(),
                es == self@.openrouter_tool_calls,
                es.len() == n,
                i <= n,
                insert_pos(es, key, i as int) == insert_pos(es, key, 0),
            decreases n - i,
        {
            assert(es[i as int].0 == self.openrouter_tool_calls@[i as int].0);
            i = i + 1;
        }
        if i < n {
            assert(es[i as int].0 == self.openrouter_tool_calls@[i as int].0);
        }
        i
    }

    /// State and events for one tool call delta at position `pos` of choice `oi`.
    fn openrouter_tool_call_delta(&mut self, oi: u32, tc: &JsonValue, pos: usize) -> (r: Vec<
        CanonicalStreamEvent,
    >)
        requires
            old(self).wf(),
        ensures
            final(self).wf(),
            (final(self)@, events_view(r@)) == spec_tool_call_delta(old(self)@, oi, tc@, pos as int),
    {
        let ghost es = old(self)@.openrouter_tool_calls;
        let tci: u32 = match json_u32(tc, "index") {
            Some(x) => x,
            None => if pos <= 0xffff_ffffusize {
                pos as u32
            } else {
                0
            },
        };
        let key: ToolCallKey = (oi, tci);
        let p = self.tool_call_position(key);
        proof {
            lemma_insert_pos(es, key, 0);
        }
        let found = p < self.openrouter_tool_calls.len() && self.openrouter_tool_calls[p].0.0 == oi
            && self.openrouter_tool_calls[p].0.1 == tci;
        let prev = if found {
            assert(es[p as int] == (self.openrouter_tool_calls@[p as int].0, self.openrouter_tool_calls@[p as int].1@));
            let entry = self.openrouter_tool_calls.remove(p);
            entry.1
        } else {
            let e = OpenRouterToolCallState {
                item_id: None,
                tool_call_id: None,
                name: None,
                arguments: String::new(),
            };
            assert(e@ == empty_tool_call());
            e
        };
        assert(prev@ == match tc_lookup(es, key) {
            Some(s) => s,
            None => empty_tool_call(),
        });
        let ghost rest = self.openrouter_tool_calls@;
        let OpenRouterToolCallState {
            item_id: prev_item_id,
            tool_call_id: prev_tool_call_id,
            name: prev_name,
            arguments: prev_arguments,
        } = prev;
        let function = tc.get("function");
        let prev_named = prev_name.is_some();
        let name: Option<String> = match prev_name {
            Some(n) => Some(n),
            None => match function {
                Some(f) => to_owned_opt(json_str(f, "name")),
                None => None,
            },
        };
        let should_start = !prev_named && name.is_some();
        let tool_call_id: Option<String> = match prev_tool_call_id {
            Some(x) => Some(x),
            None => to_owned_opt(json_str(tc, "id")),
        };
        let item_id: Option<String> = match prev_item_id {
            Some(x) => Some(x),
            None => to_owned_opt(json_str(tc, "id")),
        };
        let mut events: Vec<CanonicalStreamEvent> = Vec::new();
        if should_start {
            let n = match &name {
                Some(n) => n.clone(),
                None => String::new(),
            };
            events.push(
                CanonicalStreamEvent::OutputItemStarted {
                    output_index: oi,
                    item: StreamOutputItemStart::ToolCall {
                        item_id: item_id.clone(),
                        tool_call_id: tool_call_id.clone(),
                        name: n,
                    },
                },
            );
        }
        let mut arguments = prev_arguments;
        match function {
            Some(f) => match json_str(f, "arguments") {
                Some(a) => {
                    arguments.append(a);
                    events.push(
                        CanonicalStreamEvent::ToolCallArgumentsDelta {
                            output_index: oi,
                            tool_call_index: tci,
                            item_id: item_id.clone(),
                            tool_call_id: tool_call_id.clone(),
                            tool_name: name.clone(),
                            delta: owned(a),
                        },
                    );
                },
                None => {},
            },
            None => {},
        }
        let st = OpenRouterToolCallState { item_id, tool_call_id, name, arguments };
        let ghost stv = st@;
        self.openrouter_tool_calls.insert(p, (key, st));
        proof {
            lemma_upsert_sorted(es, key, stv);
            assert(self@.openrouter_tool_calls =~= tc_upsert(es, key, stv));
        }
        assert(events_view(events@) =~= spec_tool_call_delta(old(self)@, oi, tc@, pos as int).1);
        events
    }

    /// State and events for the tool call deltas `tcs` of choice `oi`, in order.
    fn openrouter_tool_call_deltas(&mut self, oi: u32, tcs: &Vec<JsonValue>) -> (r: Vec<
        CanonicalStreamEvent,
    >)
        requires
            old(self).wf(),
        ensures
            final(self).wf(),
            (final(self)@, events_view(r@)) == spec_tool_call_deltas(
                old(self)@,
                oi,
                Seq::new(tcs.len() as nat, |i: int| tcs@[i]@),
            ),
    {
        let ghost all = Seq::new(tcs.len() as nat, |i: int| tcs@[i]@);
        let mut events: Vec<CanonicalStreamEvent> = Vec::new();
        let mut i: usize = 0;
        assert(all.take(0) =~= Seq::<SpecJson>::empty());
        assert(events_view(events@) =~= Seq::<SpecCanonicalStreamEvent>::empty());
        while i < tcs.len()
            invariant
                self.wf(),
                i <= tcs.len(),
                all == Seq::new(tcs.len() as nat, |i: int| tcs@[i]@),
                (self@, events_view(events@)) == spec_tool_call_deltas(old(self)@, oi, all.take(i as int)),
            decreases tcs.len() - i,
        {
            assert(all.take(i + 1).drop_last() =~= all.take(i as int));
            assert(all.take(i + 1).last() == tcs@[i as int]@);
            let ghost before = events_view(events@);
            let mut more = self.openrouter_tool_call_delta(oi, &tcs[i], i);
            let ghost mv = events_view(more@);
            events.append(&mut more);
            assert(events_view(events@) =~= before + mv);
            i = i + 1;
        }
        assert(all.take(tcs.len() as int) =~= all);
        events
    }

    /// State and events for the `delta` of choice `oi`.
    fn openrouter_delta(&mut self, oi: u32, delta: &JsonValue) -> (r: Vec<CanonicalStreamEvent>)
        requires
            old(self).wf(),
        ensures
            final(self).wf(),
            (final(self)@, events_view(r@)) == spec_openrouter_delta(old(self)@, oi, delta@),
    {
        proof {
            lemma_u32_keys_totally_ordered();
        }
        let mut events: Vec<CanonicalStreamEvent> = Vec::new();
        match json_str(delta, "content") {
            Some(content) => {
                if content.unicode_len() > 0 {
                    if !self.openrouter_message_items.contains_key(&oi) {
                        let m = OpenRouterMessageState { item_id: None, completed: false };
                        let ghost mv = m@;
                        self.openrouter_message_items.insert(oi, m);
                        events.push(
                            CanonicalStreamEvent::OutputItemStarted {
                                output_index: oi,
                                item: StreamOutputItemStart::Message {
                                    item_id: None,
                                    role: MessageRole::Assistant,
                                },
                            },
                        );
                        assert(self@.openrouter_message_items =~= old(self)@.openrouter_message_items.insert(oi, mv));
                    }
                    events.push(
                        CanonicalStreamEvent::TextDelta {
                            output_index: oi,
                            content_index: 0,
                            item_id: None,
                            delta: owned(content),
                        },
                    );
                }
            },
            None => {},
        }
        let ghost e1 = events_view(events@);
        match delta.get("tool_calls") {
            Some(tc) => match tc.as_array() {
                Some(tcs) => {
                    let mut more = self.openrouter_tool_call_deltas(oi, tcs);
                    let ghost mv = events_view(more@);
                    events.append(&mut more);
                    assert(events_view(events@) =~= e1 + mv);
                },
                None => {},
            },
            None => {},
        }
        assert(events_view(events@) =~= spec_openrouter_delta(old(self)@, oi, delta@).1);
        events
    }

    /// Drops the tool calls of choice `oi`, returning completion events for the named ones.
    fn complete_tool_calls(&mut self, oi: u32) -> (r: Vec<CanonicalStreamEvent>)
        requires
            old(self).wf(),
        ensures
            final(self).wf(),
            final(self)@ == (SpecProjectorState {
                openrouter_tool_calls: tc_remaining(old(self)@.openrouter_tool_calls, oi),
                ..old(self)@
            }),
            events_view(r@) == tc_completions(old(self)@.openrouter_tool_calls, oi),
    {
        let ghost es = old(self)@.openrouter_tool_calls;
        let n = self.openrouter_tool_calls.len();
        let mut kept: Vec<(ToolCallKey, OpenRouterToolCallState)> = Vec::new();
        let mut events: Vec<CanonicalStreamEvent> = Vec::new();
        let mut i: usize = 0;
        assert(es.take(0) =~= Seq::<(ToolCallKey, SpecToolCallState)>::empty());
        assert(events_view(events@) =~= Seq::<SpecCanonicalStreamEvent>::empty());
        assert(kept@.map_values(|e: (ToolCallKey, OpenRouterToolCallState)| (e.0, e.1@)) =~= Seq::<(ToolCallKey, SpecToolCallState)>::empty());
        while i < n
            invariant
                n == self.openrouter_tool_calls.len(),
                es == self@.openrouter_tool_calls,
                i <= n,
                kept@.map_values(|e: (ToolCallKey, OpenRouterToolCallState)| (e.0, e.1@)) == tc_remaining(es.take(i as int), oi),
                events_view(events@) == tc_completions(es.take(i as int), oi),
            decreases n - i,
        {
            assert(es.take(i + 1).drop_last() =~= es.take(i as int));
            let entry = &self.openrouter_tool_calls[i];
            assert(es.take(i + 1).last() == (entry.0, entry.1@));
            let ghost kv = kept@.map_values(|e: (ToolCallKey, OpenRouterToolCallState)| (e.0, e.1@));
            if entry.0.0 == oi {
                match &entry.1.name {
                    Some(name) => {
                        events.push(
                            CanonicalStreamEvent::OutputItemCompleted {
                                output_index: oi,
                                item: StreamOutputItemEnd::ToolCall {
                                    item_id: entry.1.item_id.clone(),
                                    tool_call_id: entry.1.tool_call_id.clone(),
                                    name: name.clone(),
                                    arguments_json_text: entry.1.arguments.clone(),
                                },
                            },
                        );
                    },
                    None => {},
                }
            } else {
                kept.push((entry.0, entry.1.copy()));
                assert(kept@.map_values(|e: (ToolCallKey, OpenRouterToolCallState)| (e.0, e.1@)) =~= kv.push((entry.0, entry.1@)));
            }
            i = i + 1;
        }
        proof {
            assert(es.take(n as int) =~= es);
            lemma_remaining_sorted(es, oi);
        }
        self.openrouter_tool_calls = kept;
        assert(self@.openrouter_tool_calls == tc_remaining(es, oi));
        events
    }

    /// State and events for one choice of an OpenRouter chunk.
    fn openrouter_choice(&mut self, choice: &JsonValue) -> (r: Vec<CanonicalStreamEvent>)
        requires
            old(self).wf(),
        ensures
            final(self).wf(),
            (final(self)@, events_view(r@)) == spec_openrouter_choice(old(self)@, choice@),
    {
        proof {
            lemma_u32_keys_totally_ordered();
        }
        let oi = u32_or_zero_exec(json_u32(choice, "index"));
        let mut events: Vec<CanonicalStreamEvent> = match choice.get("delta") {
            Some(d) => self.openrouter_delta(oi, d),
            None => {
                let e: Vec<CanonicalStreamEvent> = Vec::new();
                assert(events_view(e@) =~= Seq::<SpecCanonicalStreamEvent>::empty());
                e
            },
        };
        let ghost s1 = self@;
        let ghost e1 = events_view(events@);
        let finish_reason = match parse_finish_reason(json_str(choice, "finish_reason")) {
            Some(f) => f,
            None => {
                return events;
            },
        };
        let open_item: Option<Option<String>> = match self.openrouter_message_items.get(&oi) {
            Some(m) => if !m.completed {
                Some(m.item_id.clone())
            } else {
                None
            },
            None => None,
        };
        match open_item {
            Some(item_id) => {
                let m = OpenRouterMessageState { item_id: item_id.clone(), completed: true };
                let ghost mv = m@;
                self.openrouter_message_items.insert(oi, m);
                events.push(
                    CanonicalStreamEvent::OutputItemCompleted {
                        output_index: oi,
                        item: StreamOutputItemEnd::Message { item_id },
                    },
                );
                assert(self@.openrouter_message_items =~= s1.openrouter_message_items.insert(oi, mv));
            },
            None => {},
        }
        let ghost e2 = events_view(events@);
        let mut done = self.complete_tool_calls(oi);
        let ghost dv = events_view(done@);
        events.append(&mut done);
        assert(events_view(events@) =~= e2 + dv);
        if !self.completed {
            self.completed = true;
            events.push(CanonicalStreamEvent::Completed { finish_reason });
        }
        assert(events_view(events@) =~= spec_openrouter_choice(old(self)@, choice@).1);
        events
    }

    /// State and events for the choices of an OpenRouter chunk, in order.
    fn openrouter_choices(&mut self, choices: &Vec<JsonValue>) -> (r: Vec<CanonicalStreamEvent>)
        requires
            old(self).wf(),
        ensures
            final(self).wf(),
            (final(self)@, events_view(r@)) == spec_openrouter_choices(
                old(self)@,
                Seq::new(choices.len() as nat, |i: int| choices@[i]@),
            ),
    {
        let ghost all = Seq::new(choices.len() as nat, |i: int| choices@[i]@);
        let mut events: Vec<CanonicalStreamEvent> = Vec::new();
        let mut i: usize = 0;
        assert(all.take(0) =~= Seq::<SpecJson>::empty());
        assert(events_view(events@) =~= Seq::<SpecCanonicalStreamEvent>::empty());
        while i < choices.len()
            invariant
                self.wf(),
                i <= choices.len(),
                all == Seq::new(choices.len() as nat, |i: int| choices@[i]@),
                (self@, events_view(events@)) == spec_openrouter_choices(old(self)@, all.take(i as int)),
            decreases choices.len() - i,
        {
            assert(all.take(i + 1).drop_last() =~= all.take(i as int));
            assert(all.take(i + 1).last() == choices@[i as int]@);
            let ghost before = events_view(events@);
            let mut more = self.openrouter_choice(&choices[i]);
            let ghost mv = events_view(more@);
            events.append(&mut more);
            assert(events_view(events@) =~= before + mv);
            i = i + 1;
        }
        assert(all.take(choices.len() as int) =~= all);
        events
    }

    /// State and events for an OpenAI `response.completed` frame.
    fn openai_completed(&mut self, value: &JsonValue) -> (r: Vec<CanonicalStreamEvent>)
        requires
            old(self).wf(),
        ensures
            final(self).wf(),
            (final(self)@, events_view(r@)) == spec_openai_completed(old(self)@, value@),
    {
        let mut events: Vec<CanonicalStreamEvent> = Vec::new();
        let response = match value.get("response") {
            Some(response) => response,
            None => {
                assert(events_view(events@) =~= Seq::empty());
                return events;
            },
        };
        let failure = match response.get("error") {
            Some(e) => json_str(e, "message"),
            None => None,
        };
        match failure {
            Some(message) => {
                events.push(CanonicalStreamEvent::Failed { message: owned(message) });
                self.completed = true;
                assert(events_view(events@) =~= spec_openai_completed(old(self)@, value@).1);
                return events;
            },
            None => {},
        }
        match response.get("usage") {
            Some(u) => match parse_openai_usage(u) {
                Some(usage) => {
                    events.push(CanonicalStreamEvent::UsageUpdated { usage });
                },
                None => {},
            },
            None => {},
        }
        if !self.completed {
            self.completed = true;
            events.push(
                CanonicalStreamEvent::Completed {
                    finish_reason: infer_openai_finish_reason(response),
                },
            );
        }
        assert(events_view(events@) =~= spec_openai_completed(old(self)@, value@).1);
        events
    }

    /// The state and events that one frame produces.
    pub open spec fn spec_step(
        st: SpecProjectorState,
        raw: ProviderRawStreamEvent,
    ) -> (SpecProjectorState, Seq<SpecCanonicalStreamEvent>) {
        match raw.provider {
            ProviderKind::Anthropic => spec_anthropic_step(st, raw.spec_event_name(), raw.spec_json()),
            ProviderKind::OpenRouter => spec_openrouter_step(st, raw.payload@),
            _ => spec_openai_step(st, raw.spec_json()),
        }
    }

    /// Projects one raw frame, returning it together with the canonical events it yields.
    /// OpenAI and generic OpenAI-compatible frames share the OpenAI projection.
    pub fn project(&mut self, raw: ProviderRawStreamEvent) -> (r: CanonicalStreamEnvelope)
        requires
            old(self).wf(),
        ensures
            final(self).wf(),
            r.raw == raw,
            (final(self)@, events_view(r.canonical@)) == Self::spec_step(old(self)@, raw),
    {
        let canonical = match raw.provider {
            ProviderKind::Anthropic => self.project_anthropic(&raw),
            ProviderKind::OpenRouter => self.project_openrouter(&raw),
            _ => self.project_openai(&raw),
        };
        CanonicalStreamEnvelope { raw, canonical }
    }
}

} // verus!
