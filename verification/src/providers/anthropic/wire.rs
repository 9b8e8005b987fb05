//! Anthropic Messages wire shapes, and the checks that decide whether a JSON
//! document has the shape of one. A struct is read from an object (members by
//! name, others ignored) or from an array (fields by position, no more elements
//! than fields); an optional field may be absent or `null`, a list field may be
//! absent, and a required field must be present with the right type.
use vstd::prelude::*;

use crate::json::{opt_view, JsonValue, SpecJson, SpecJsonNumber};
use crate::providers::error::opt_string_view;
use crate::text::owned;
use crate::types::tool::opt_json_view;

verus! {

/// Where a struct field is read from: the member `key` of an object, or the
/// element at `pos` of an array.
pub open spec fn spec_field_source(v: SpecJson, key: Seq<char>, pos: int) -> Option<SpecJson> {
    match v {
        SpecJson::Object(_) => v.get(key),
        SpecJson::Array(items) => if 0 <= pos < items.len() {
            Some(items[pos])
        } else {
            None
        },
        _ => None,
    }
}

/// Whether `v` can carry a struct of `n` fields.
pub open spec fn spec_struct_form(v: SpecJson, n: nat) -> bool {
    match v {
        SpecJson::Object(_) => true,
        SpecJson::Array(items) => items.len() <= n,
        _ => false,
    }
}

/// An optional text field: absent, `null` or a string.
pub open spec fn spec_opt_string_fits(f: Option<SpecJson>) -> bool {
    match f {
        None => true,
        Some(SpecJson::Null) => true,
        Some(SpecJson::Str(_)) => true,
        _ => false,
    }
}

/// The text an optional text field holds.
pub open spec fn spec_opt_string_of(f: Option<SpecJson>) -> Option<Seq<char>> {
    match f {
        Some(SpecJson::Str(s)) => Some(s),
        _ => None,
    }
}

/// An optional unsigned field: absent, `null` or an unsigned integer.
pub open spec fn spec_opt_u64_fits(f: Option<SpecJson>) -> bool {
    match f {
        None => true,
        Some(SpecJson::Null) => true,
        Some(SpecJson::Number(SpecJsonNumber::PosInt(_))) => true,
        _ => false,
    }
}

/// The number an optional unsigned field holds.
pub open spec fn spec_opt_u64_of(f: Option<SpecJson>) -> Option<u64> {
    match f {
        Some(SpecJson::Number(SpecJsonNumber::PosInt(n))) => Some(n),
        _ => None,
    }
}

/// The document an optional document field holds (`null` counts as absent).
pub open spec fn spec_opt_value_of(f: Option<SpecJson>) -> Option<SpecJson> {
    match f {
        Some(SpecJson::Null) => None,
        other => other,
    }
}

/// A required text field: present and a string.
pub open spec fn spec_string_fits(f: Option<SpecJson>) -> bool {
    f matches Some(SpecJson::Str(_))
}

/// A required `u32` field: an unsigned integer no larger than `u32::MAX`.
pub open spec fn spec_u32_fits(f: Option<SpecJson>) -> bool {
    match f {
        Some(SpecJson::Number(SpecJsonNumber::PosInt(n))) => n <= u32::MAX,
        _ => false,
    }
}

/// A list field with a default: absent or an array.
pub open spec fn spec_list_fits(f: Option<SpecJson>) -> bool {
    match f {
        None => true,
        Some(SpecJson::Array(_)) => true,
        _ => false,
    }
}

/// The items of a list field.
pub open spec fn spec_list_of(f: Option<SpecJson>) -> Seq<SpecJson> {
    match f {
        Some(SpecJson::Array(items)) => items,
        _ => Seq::empty(),
    }
}

/// The source of a struct field.
pub fn field_source<'a>(v: &'a JsonValue, key: &str, pos: usize) -> (r: Option<&'a JsonValue>)
    ensures
        opt_view(r) == spec_field_source(v@, key@, pos as int),
{
    match v {
        JsonValue::Object(_) => v.get(key),
        JsonValue::Array(items) => {
            if pos < items.len() {
                Some(&items[pos])
            } else {
                None
            }
        },
        _ => None,
    }
}

/// Whether `v` can carry a struct of `n` fields.
pub fn struct_form(v: &JsonValue, n: usize) -> (r: bool)
    ensures
        r == spec_struct_form(v@, n as nat),
{
    match v {
        JsonValue::Object(_) => true,
        JsonValue::Array(items) => items.len() <= n,
        _ => false,
    }
}

/// Whether an optional text field fits.
pub fn opt_string_fits(f: Option<&JsonValue>) -> (r: bool)
    ensures
        r == spec_opt_string_fits(opt_view(f)),
{
    match f {
        None => true,
        Some(JsonValue::Null) => true,
        Some(JsonValue::String(_)) => true,
        _ => false,
    }
}

/// The text of an optional text field.
pub fn opt_string_of(f: Option<&JsonValue>) -> (r: Option<String>)
    ensures
        opt_string_view(r) == spec_opt_string_of(opt_view(f)),
{
    match f {
        Some(JsonValue::String(s)) => Some(s.clone()),
        _ => None,
    }
}

/// Whether an optional unsigned field fits.
pub fn opt_u64_fits(f: Option<&JsonValue>) -> (r: bool)
    ensures
        r == spec_opt_u64_fits(opt_view(f)),
{
    match f {
        None => true,
        Some(JsonValue::Null) => true,
        Some(JsonValue::Number(crate::json::JsonNumber::PosInt(_))) => true,
        _ => false,
    }
}

/// The number of an optional unsigned field.
pub fn opt_u64_of(f: Option<&JsonValue>) -> (r: Option<u64>)
    ensures
        r == spec_opt_u64_of(opt_view(f)),
{
    match f {
        Some(JsonValue::Number(crate::json::JsonNumber::PosInt(n))) => Some(*n),
        _ => None,
    }
}

/// A copy of the document of an optional document field.
pub fn opt_value_of(f: Option<&JsonValue>) -> (r: Option<JsonValue>)
    ensures
        opt_json_view(r) == spec_opt_value_of(opt_view(f)),
{
    match f {
        None => None,
        Some(JsonValue::Null) => None,
        Some(v) => Some(v.copy()),
    }
}

/// Whether a required text field fits.
pub fn string_fits(f: Option<&JsonValue>) -> (r: bool)
    ensures
        r == spec_string_fits(opt_view(f)),
{
    match f {
        Some(JsonValue::String(_)) => true,
        _ => false,
    }
}

/// Whether a required `u32` field fits.
pub fn u32_fits(f: Option<&JsonValue>) -> (r: bool)
    ensures
        r == spec_u32_fits(opt_view(f)),
{
    match f {
        Some(JsonValue::Number(crate::json::JsonNumber::PosInt(n))) => *n <= 0xffff_ffffu64,
        _ => false,
    }
}

/// Whether a list field fits.
pub fn list_fits(f: Option<&JsonValue>) -> (r: bool)
    ensures
        r == spec_list_fits(opt_view(f)),
{
    match f {
        None => true,
        Some(JsonValue::Array(_)) => true,
        _ => false,
    }
}

/// A copy of the items of a list field.
pub fn list_of(f: Option<&JsonValue>) -> (r: Vec<JsonValue>)
    ensures
        r@.map_values(|x: JsonValue| x@) == spec_list_of(opt_view(f)),
{
    match f {
        Some(v) => match v {
            JsonValue::Array(items) => {
                let mut out: Vec<JsonValue> = Vec::new();
                let mut i: usize = 0;
                while i < items.len()
                    invariant
                        i <= items.len(),
                        out.len() == i,
                        forall|k: int| 0 <= k < i ==> (#[trigger] out@[k])@ == items@[k]@,
                    decreases items.len() - i,
                {
                    out.push(items[i].copy());
                    i = i + 1;
                }
                assert(out@.map_values(|x: JsonValue| x@) =~= v@->Array_0);
                out
            },
            _ => {
                let out: Vec<JsonValue> = Vec::new();
                assert(out@.map_values(|x: JsonValue| x@) =~= Seq::<SpecJson>::empty());
                out
            },
        },
        None => {
            let out: Vec<JsonValue> = Vec::new();
            assert(out@.map_values(|x: JsonValue| x@) =~= Seq::<SpecJson>::empty());
            out
        },
    }
}

/// Anthropic token accounting.
#[derive(Debug, Clone, Copy, PartialEq, Eq, Structural)]
pub struct AnthropicUsage {
    /// Prompt tokens.
    pub input_tokens: Option<u64>,
    /// Newly created cache tokens.
    pub cache_creation_input_tokens: Option<u64>,
    /// Cache-read prompt tokens.
    pub cache_read_input_tokens: Option<u64>,
    /// Completion tokens.
    pub output_tokens: Option<u64>,
}

impl Default for AnthropicUsage {
    fn default() -> (r: Self)
        ensures
            r.input_tokens is None,
            r.cache_creation_input_tokens is None,
            r.cache_read_input_tokens is None,
            r.output_tokens is None,
    {
        AnthropicUsage {
            input_tokens: None,
            cache_creation_input_tokens: None,
            cache_read_input_tokens: None,
            output_tokens: None,
        }
    }
}

impl AnthropicUsage {
    /// Whether `v` has the shape of a usage record.
    pub open spec fn accepts(v: SpecJson) -> bool {
        &&& spec_struct_form(v, 4)
        &&& spec_opt_u64_fits(spec_field_source(v, "input_tokens"@, 0))
        &&& spec_opt_u64_fits(spec_field_source(v, "cache_creation_input_tokens"@, 1))
        &&& spec_opt_u64_fits(spec_field_source(v, "cache_read_input_tokens"@, 2))
        &&& spec_opt_u64_fits(spec_field_source(v, "output_tokens"@, 3))
    }

    /// The usage record read from `v`.
    pub open spec fn read(v: SpecJson) -> AnthropicUsage {
        AnthropicUsage {
            input_tokens: spec_opt_u64_of(spec_field_source(v, "input_tokens"@, 0)),
            cache_creation_input_tokens: spec_opt_u64_of(spec_field_source(v, "cache_creation_input_tokens"@, 1)),
            cache_read_input_tokens: spec_opt_u64_of(spec_field_source(v, "cache_read_input_tokens"@, 2)),
            output_tokens: spec_opt_u64_of(spec_field_source(v, "output_tokens"@, 3)),
        }
    }

    /// Reads a usage record, or `None` when `value` does not have its shape.
    pub fn from_json(value: &JsonValue) -> (r: Option<AnthropicUsage>)
        ensures
            match r {
                Some(u) => Self::accepts(value@) && u == Self::read(value@),
                None => !Self::accepts(value@),
            },
    {
        let input = field_source(value, "input_tokens", 0);
        let creation = field_source(value, "cache_creation_input_tokens", 1);
        let read = field_source(value, "cache_read_input_tokens", 2);
        let output = field_source(value, "output_tokens", 3);
        if struct_form(value, 4) && opt_u64_fits(input) && opt_u64_fits(creation) && opt_u64_fits(
            read,
        ) && opt_u64_fits(output) {
            Some(
                AnthropicUsage {
                    input_tokens: opt_u64_of(input),
                    cache_creation_input_tokens: opt_u64_of(creation),
                    cache_read_input_tokens: opt_u64_of(read),
                    output_tokens: opt_u64_of(output),
                },
            )
        } else {
            None
        }
    }
}

/// Known Anthropic text content block.
#[derive(Debug, Clone, PartialEq)]
pub struct AnthropicTextBlock {
    /// Block discriminator (`type`).
    pub block_type: String,
    /// Text payload emitted by the block.
    pub text: Option<String>,
}

impl AnthropicTextBlock {
    /// Whether `v` has the shape of a text block.
    pub open spec fn accepts(v: SpecJson) -> bool {
        &&& spec_struct_form(v, 2)
        &&& spec_string_fits(spec_field_source(v, "type"@, 0))
        &&& spec_opt_string_fits(spec_field_source(v, "text"@, 1))
    }

    /// Reads a text block, or `None` when `value` does not have its shape.
    pub fn from_json(value: &JsonValue) -> (r: Option<AnthropicTextBlock>)
        ensures
            match r {
                Some(b) => Self::accepts(value@) && Some(b.block_type@) == spec_opt_string_of(
                    spec_field_source(value@, "type"@, 0),
                ) && opt_string_view(b.text) == spec_opt_string_of(spec_field_source(value@, "text"@, 1)),
                None => !Self::accepts(value@),
            },
    {
        let ty = field_source(value, "type", 0);
        let text = field_source(value, "text", 1);
        if struct_form(value, 2) && string_fits(ty) && opt_string_fits(text) {
            let block_type = match opt_string_of(ty) {
                Some(t) => t,
                None => String::new(),
            };
            Some(AnthropicTextBlock { block_type, text: opt_string_of(text) })
        } else {
            None
        }
    }
}

/// Known Anthropic tool-use content block.
#[derive(Debug, PartialEq)]
pub struct AnthropicToolUseBlock {
    /// Block discriminator (`type`).
    pub block_type: String,
    /// Provider-generated tool call identifier.
    pub id: Option<String>,
    /// Tool name selected by the model.
    pub name: Option<String>,
    /// Tool input payload.
    pub input: Option<JsonValue>,
}

impl AnthropicToolUseBlock {
    /// Whether `v` has the shape of a tool-use block.
    pub open spec fn accepts(v: SpecJson) -> bool {
        &&& spec_struct_form(v, 4)
        &&& spec_string_fits(spec_field_source(v, "type"@, 0))
        &&& spec_opt_string_fits(spec_field_source(v, "id"@, 1))
        &&& spec_opt_string_fits(spec_field_source(v, "name"@, 2))
    }

    /// Reads a tool-use block, or `None` when `value` does not have its shape.
    pub fn from_json(value: &JsonValue) -> (r: Option<AnthropicToolUseBlock>)
        ensures
            match r {
                Some(b) => {
                    &&& Self::accepts(value@)
                    &&& Some(b.block_type@) == spec_opt_string_of(spec_field_source(value@, "type"@, 0))
                    &&& opt_string_view(b.id) == spec_opt_string_of(spec_field_source(value@, "id"@, 1))
                    &&& opt_string_view(b.name) == spec_opt_string_of(spec_field_source(value@, "name"@, 2))
                    &&& opt_json_view(b.input) == spec_opt_value_of(spec_field_source(value@, "input"@, 3))
                },
                None => !Self::accepts(value@),
            },
    {
        let ty = field_source(value, "type", 0);
        let id = field_source(value, "id", 1);
        let name = field_source(value, "name", 2);
        let input = field_source(value, "input", 3);
        if struct_form(value, 4) && string_fits(ty) && opt_string_fits(id) && opt_string_fits(name) {
            let block_type = match opt_string_of(ty) {
                Some(t) => t,
                None => String::new(),
            };
            Some(
                AnthropicToolUseBlock {
                    block_type,
                    id: opt_string_of(id),
                    name: opt_string_of(name),
                    input: opt_value_of(input),
                },
            )
        } else {
            None
        }
    }
}

/// Known Anthropic thinking content block.
#[derive(Debug, Clone, PartialEq)]
pub struct AnthropicThinkingBlock {
    /// Block discriminator (`type`).
    pub block_type: String,
    /// Thinking text, when given in a `thinking` member.
    pub thinking: Option<String>,
    /// Alternate text member seen on some thinking-like payloads.
    pub text: Option<String>,
}

/// Known Anthropic redacted-thinking content block.
#[derive(Debug, Clone, PartialEq)]
pub struct AnthropicRedactedThinkingBlock {
    /// Block discriminator (`type`).
    pub block_type: String,
}

/// Shared Anthropic decoded message envelope.
#[derive(Debug, PartialEq)]
pub struct AnthropicMessageBody {
    /// Provider-generated message identifier.
    pub id: Option<String>,
    /// Top-level discriminator (`type`).
    pub message_type: Option<String>,
    /// Role associated with the returned message.
    pub role: Option<String>,
    /// Model identifier returned by Anthropic.
    pub model: Option<String>,
    /// Raw content blocks of the message body.
    pub content: Vec<JsonValue>,
    /// Anthropic stop reason of the completed message.
    pub stop_reason: Option<String>,
    /// Optional provider stop-sequence payload.
    pub stop_sequence: Option<JsonValue>,
    /// Raw usage payload returned alongside the message.
    pub usage: Option<JsonValue>,
}

impl AnthropicMessageBody {
    /// Whether `v` has the shape of a message envelope (eight fields: `id`,
    /// `type`, `role`, `model`, `content`, `stop_reason`, `stop_sequence`, `usage`).
    pub open spec fn accepts(v: SpecJson) -> bool {
        &&& spec_struct_form(v, 8)
        &&& spec_opt_string_fits(spec_field_source(v, "id"@, 0))
        &&& spec_opt_string_fits(spec_field_source(v, "type"@, 1))
        &&& spec_opt_string_fits(spec_field_source(v, "role"@, 2))
        &&& spec_opt_string_fits(spec_field_source(v, "model"@, 3))
        &&& spec_list_fits(spec_field_source(v, "content"@, 4))
        &&& spec_opt_string_fits(spec_field_source(v, "stop_reason"@, 5))
    }

    /// Reads a message envelope, or `None` when `value` does not have its shape.
    pub fn from_json(value: &JsonValue) -> (r: Option<AnthropicMessageBody>)
        ensures
            match r {
                Some(b) => {
                    &&& Self::accepts(value@)
                    &&& opt_string_view(b.id) == spec_opt_string_of(spec_field_source(value@, "id"@, 0))
                    &&& opt_string_view(b.message_type) == spec_opt_string_of(spec_field_source(value@, "type"@, 1))
                    &&& opt_string_view(b.role) == spec_opt_string_of(spec_field_source(value@, "role"@, 2))
                    &&& opt_string_view(b.model) == spec_opt_string_of(spec_field_source(value@, "model"@, 3))
                    &&& b.content@.map_values(|x: JsonValue| x@) == spec_list_of(spec_field_source(value@, "content"@, 4))
                    &&& opt_string_view(b.stop_reason) == spec_opt_string_of(
                        spec_field_source(value@, "stop_reason"@, 5),
                    )
                    &&& opt_json_view(b.stop_sequence) == spec_opt_value_of(
                        spec_field_source(value@, "stop_sequence"@, 6),
                    )
                    &&& opt_json_view(b.usage) == spec_opt_value_of(spec_field_source(value@, "usage"@, 7))
                },
                None => !Self::accepts(value@),
            },
    {
        let id = field_source(value, "id", 0);
        let message_type = field_source(value, "type", 1);
        let role = field_source(value, "role", 2);
        let model = field_source(value, "model", 3);
        let content = field_source(value, "content", 4);
        let stop_reason = field_source(value, "stop_reason", 5);
        if struct_form(value, 8) && opt_string_fits(id) && opt_string_fits(message_type) && opt_string_fits(role)
            && opt_string_fits(model) && list_fits(content) && opt_string_fits(stop_reason) {
            Some(
                AnthropicMessageBody {
                    id: opt_string_of(id),
                    message_type: opt_string_of(message_type),
                    role: opt_string_of(role),
                    model: opt_string_of(model),
                    content: list_of(content),
                    stop_reason: opt_string_of(stop_reason),
                    stop_sequence: opt_value_of(field_source(value, "stop_sequence", 6)),
                    usage: opt_value_of(field_source(value, "usage", 7)),
                },
            )
        } else {
            None
        }
    }
}

/// Typed `message_start` streaming event.
#[derive(Debug, PartialEq)]
pub struct AnthropicMessageStartEvent {
    /// Event discriminator (`type`).
    pub event_type: Option<String>,
    /// Nested message payload.
    pub message: AnthropicMessageBody,
}

impl AnthropicMessageStartEvent {
    /// Whether `v` has the shape of a `message_start` event.
    pub open spec fn accepts(v: SpecJson) -> bool {
        &&& spec_struct_form(v, 2)
        &&& spec_opt_string_fits(spec_field_source(v, "type"@, 0))
        &&& match spec_field_source(v, "message"@, 1) {
            Some(m) => AnthropicMessageBody::accepts(m),
            None => false,
        }
    }

    /// Reads the event, or `None` when `value` does not have its shape.
    pub fn from_json(value: &JsonValue) -> (r: Option<AnthropicMessageStartEvent>)
        ensures
            match r {
                Some(e) => {
                    &&& Self::accepts(value@)
                    &&& opt_string_view(e.event_type) == spec_opt_string_of(spec_field_source(value@, "type"@, 0))
                    &&& spec_field_source(value@, "message"@, 1) matches Some(m) && opt_string_view(
                        e.message.id,
                    ) == spec_opt_string_of(spec_field_source(m, "id"@, 0)) && opt_string_view(e.message.model)
                        == spec_opt_string_of(spec_field_source(m, "model"@, 3))
                },
                None => !Self::accepts(value@),
            },
    {
        let ty = field_source(value, "type", 0);
        if !(struct_form(value, 2) && opt_string_fits(ty)) {
            return None;
        }
        match field_source(value, "message", 1) {
            Some(m) => match AnthropicMessageBody::from_json(m) {
                Some(message) => Some(AnthropicMessageStartEvent { event_type: opt_string_of(ty), message }),
                None => None,
            },
            None => None,
        }
    }
}

/// Typed `content_block_start` streaming event.
#[derive(Debug, PartialEq)]
pub struct AnthropicContentBlockStartEvent {
    /// Event discriminator (`type`).
    pub event_type: Option<String>,
    /// Output index of the content block.
    pub index: u32,
    /// The content block as sent.
    pub content_block: JsonValue,
}

impl AnthropicContentBlockStartEvent {
    /// Whether `v` has the shape of a `content_block_start` event.
    pub open spec fn accepts(v: SpecJson) -> bool {
        &&& spec_struct_form(v, 3)
        &&& spec_opt_string_fits(spec_field_source(v, "type"@, 0))
        &&& spec_u32_fits(spec_field_source(v, "index"@, 1))
        &&& spec_field_source(v, "content_block"@, 2) is Some
    }

    /// Reads the event, or `None` when `value` does not have its shape.
    pub fn from_json(value: &JsonValue) -> (r: Option<AnthropicContentBlockStartEvent>)
        ensures
            match r {
                Some(e) => {
                    &&& Self::accepts(value@)
                    &&& opt_string_view(e.event_type) == spec_opt_string_of(spec_field_source(value@, "type"@, 0))
                    &&& spec_opt_u64_of(spec_field_source(value@, "index"@, 1)) == Some(e.index as u64)
                    &&& spec_field_source(value@, "content_block"@, 2) == Some(e.content_block@)
                },
                None => !Self::accepts(value@),
            },
    {
        let ty = field_source(value, "type", 0);
        let index = field_source(value, "index", 1);
        if !(struct_form(value, 3) && opt_string_fits(ty) && u32_fits(index)) {
            return None;
        }
        let n = match opt_u64_of(index) {
            Some(n) => n,
            None => 0,
        };
        match field_source(value, "content_block", 2) {
            Some(block) => Some(
                AnthropicContentBlockStartEvent {
                    event_type: opt_string_of(ty),
                    index: n as u32,
                    content_block: block.copy(),
                },
            ),
            None => None,
        }
    }
}

/// Typed payload of `message_delta.delta`.
#[derive(Debug, PartialEq)]
pub struct AnthropicMessageDeltaPayload {
    /// Updated stop reason.
    pub stop_reason: Option<String>,
    /// Provider stop-sequence payload.
    pub stop_sequence: Option<JsonValue>,
}

impl AnthropicMessageDeltaPayload {
    /// Whether `v` has the shape of a message delta payload.
    pub open spec fn accepts(v: SpecJson) -> bool {
        &&& spec_struct_form(v, 2)
        &&& spec_opt_string_fits(spec_field_source(v, "stop_reason"@, 0))
    }
}

/// Typed `message_delta` streaming event.
#[derive(Debug, PartialEq)]
pub struct AnthropicMessageDeltaEvent {
    /// Event discriminator (`type`).
    pub event_type: Option<String>,
    /// Nested delta payload.
    pub delta: AnthropicMessageDeltaPayload,
    /// Usage reported with the delta, as sent.
    pub usage: Option<JsonValue>,
}

impl AnthropicMessageDeltaEvent {
    /// Whether `v` has the shape of a `message_delta` event.
    pub open spec fn accepts(v: SpecJson) -> bool {
        &&& spec_struct_form(v, 3)
        &&& spec_opt_string_fits(spec_field_source(v, "type"@, 0))
        &&& match spec_field_source(v, "delta"@, 1) {
            Some(d) => AnthropicMessageDeltaPayload::accepts(d),
            None => false,
        }
    }

    /// Reads the event, or `None` when `value` does not have its shape.
    pub fn from_json(value: &JsonValue) -> (r: Option<AnthropicMessageDeltaEvent>)
        ensures
            match r {
                Some(e) => {
                    &&& Self::accepts(value@)
                    &&& opt_string_view(e.event_type) == spec_opt_string_of(spec_field_source(value@, "type"@, 0))
                    &&& spec_field_source(value@, "delta"@, 1) matches Some(d) && opt_string_view(
                        e.delta.stop_reason,
                    ) == spec_opt_string_of(spec_field_source(d, "stop_reason"@, 0)) && opt_json_view(
                        e.delta.stop_sequence,
                    ) == spec_opt_value_of(spec_field_source(d, "stop_sequence"@, 1))
                    &&& opt_json_view(e.usage) == spec_opt_value_of(spec_field_source(value@, "usage"@, 2))
                },
                None => !Self::accepts(value@),
            },
    {
        let ty = field_source(value, "type", 0);
        if !(struct_form(value, 3) && opt_string_fits(ty)) {
            return None;
        }
        match field_source(value, "delta", 1) {
            Some(d) => {
                let stop = field_source(d, "stop_reason", 0);
                if struct_form(d, 2) && opt_string_fits(stop) {
                    Some(
                        AnthropicMessageDeltaEvent {
                            event_type: opt_string_of(ty),
                            delta: AnthropicMessageDeltaPayload {
                                stop_reason: opt_string_of(stop),
                                stop_sequence: opt_value_of(field_source(d, "stop_sequence", 1)),
                            },
                            usage: opt_value_of(field_source(value, "usage", 2)),
                        },
                    )
                } else {
                    None
                }
            },
            None => None,
        }
    }
}

} // verus!
