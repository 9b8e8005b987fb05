//! Encoding of provider-agnostic requests into Anthropic Messages request bodies.
use vstd::prelude::*;

use crate::json::{array_of, lemma_obj_lookup_concat, lemma_obj_lookup_single, obj_lookup, object_of, string_of, JsonNumber, JsonValue, SpecJson, SpecJsonNumber};
use crate::providers::anthropic::{AnthropicEncodedRequest, SpecEncodedRequest};
use crate::providers::anthropic::decode::{push_warning, warning};
use crate::providers::anthropic::schema_rules::{
    permissive_json_object_schema, spec_permissive_json_object_schema,
};
use crate::providers::anthropic::{AnthropicFamilyError, AnthropicFamilyErrorKind};
use crate::text::{concat, concat3, is_blank_str, owned, spec_trim, str_equal};
use crate::types::request::{opt_sampling_view, Request, SamplingValue, SpecRequest};
use crate::types::response::{warnings_view, RuntimeWarning, SpecRuntimeWarning};
use crate::types::task::{ResponseFormat, SpecResponseFormat};
use crate::types::message::{Message, MessageRole, SpecMessage};
use crate::types::tool::opt_json_view;
use crate::types::tool::{
    parts_view, ContentPart, SpecContentPart, SpecToolCall, SpecToolChoice, SpecToolDefinition,
    SpecToolResult, SpecToolResultContent, ToolChoice, ToolDefinition, ToolResult, ToolResultContent,
};
use crate::providers::anthropic::schema_rules::{
    canonicalize_json, spec_canonicalize, spec_stable_json_string, stable_json_string,
};

verus! {

/// The kind and message of an encoding error.
pub type EncodeError = (AnthropicFamilyErrorKind, Seq<char>);

/// A validation error with `message`.
pub open spec fn invalid(message: Seq<char>) -> EncodeError {
    (AnthropicFamilyErrorKind::Validation, message)
}

/// A protocol violation with `message`.
pub open spec fn violation(message: Seq<char>) -> EncodeError {
    (AnthropicFamilyErrorKind::ProtocolViolation, message)
}

/// Whether an error has the given kind and message.
pub open spec fn error_is(e: AnthropicFamilyError, expected: EncodeError) -> bool {
    e.spec_kind() == expected.0 && e.spec_message() == expected.1
}

/// Whether an outcome without a value matches its model.
pub open spec fn unit_outcome(r: Result<(), AnthropicFamilyError>, s: Result<(), EncodeError>) -> bool {
    match s {
        Ok(_) => r is Ok,
        Err(k) => r matches Err(e) && error_is(e, k),
    }
}

/// Whether a document outcome matches its model.
pub open spec fn json_outcome(r: Result<JsonValue, AnthropicFamilyError>, s: Result<SpecJson, EncodeError>) -> bool {
    match s {
        Ok(v) => r matches Ok(x) && x@ == v,
        Err(k) => r matches Err(e) && error_is(e, k),
    }
}

/// `{"text": text, "type": "text"}`.
pub open spec fn spec_text_block(text: Seq<char>) -> SpecJson {
    SpecJson::Object(seq![("text"@, SpecJson::Str(text)), ("type"@, SpecJson::Str("text"@))])
}

/// A text content block.
pub fn text_block(text: &str) -> (r: JsonValue)
    ensures
        r@ == spec_text_block(text@),
{
    let mut entries: Vec<(String, JsonValue)> = Vec::new();
    entries.push((owned("text"), string_of(text)));
    entries.push((owned("type"), string_of("text")));
    let r = object_of(entries);
    assert(r@->Object_0 =~= spec_text_block(text@)->Object_0);
    r
}

/// `{"type": kind}`.
pub open spec fn spec_type_only(kind: Seq<char>) -> SpecJson {
    SpecJson::Object(seq![("type"@, SpecJson::Str(kind))])
}

/// An object holding only a `type`.
fn type_only(kind: &str) -> (r: JsonValue)
    ensures
        r@ == spec_type_only(kind@),
{
    let mut entries: Vec<(String, JsonValue)> = Vec::new();
    entries.push((owned("type"), string_of(kind)));
    let r = object_of(entries);
    assert(r@->Object_0 =~= spec_type_only(kind@)->Object_0);
    r
}

/// Whether some tool is named `name`.
pub open spec fn has_tool(tools: Seq<SpecToolDefinition>, name: Seq<char>) -> bool {
    exists|i: int| 0 <= i < tools.len() && (#[trigger] tools[i]).name == name
}

/// Whether some tool of `tools` is named `name`.
fn tools_contain(tools: &Vec<ToolDefinition>, name: &str) -> (r: bool)
    ensures
        r == has_tool(tools@.map_values(|t: ToolDefinition| t@), name@),
{
    let ghost tv = tools@.map_values(|t: ToolDefinition| t@);
    let mut i: usize = 0;
    while i < tools.len()
        invariant
            i <= tools.len(),
            tv == tools@.map_values(|t: ToolDefinition| t@),
            forall|k: int| 0 <= k < i ==> (#[trigger] tv[k]).name != name@,
        decreases tools.len() - i,
    {
        if str_equal(tools[i].name.as_str(), name) {
            assert(tv[i as int].name == name@);
            return true;
        }
        i = i + 1;
    }
    false
}

/// Whether a tool choice fits the declared tools.
pub open spec fn spec_validate_tool_choice(req: SpecRequest) -> Result<(), EncodeError> {
    if req.tools.len() == 0 && req.tool_choice is Required {
        Err(invalid("tool_choice 'required' requires at least one tool definition"@))
    } else if req.tools.len() == 0 && req.tool_choice is Specific {
        Err(invalid("tool_choice 'specific' requires at least one tool definition"@))
    } else {
        match req.tool_choice {
            SpecToolChoice::Specific { name } => if spec_trim(name).len() == 0 {
                Err(invalid("tool_choice specific requires a non-empty tool name"@))
            } else if !has_tool(req.tools, name) {
                Err(invalid("tool_choice specific references unknown tool: "@ + name))
            } else {
                Ok(())
            },
            _ => Ok(()),
        }
    }
}

/// Checks the tool choice against the declared tools.
pub fn validate_tool_choice(req: &Request) -> (r: Result<(), AnthropicFamilyError>)
    ensures
        unit_outcome(r, spec_validate_tool_choice(req@)),
{
    let no_tools = req.tools.len() == 0;
    match &req.tool_choice {
        ToolChoice::Required => {
            if no_tools {
                return Err(
                    AnthropicFamilyError::validation(
                        "tool_choice 'required' requires at least one tool definition",
                    ),
                );
            }
            Ok(())
        },
        ToolChoice::Specific { name } => {
            if no_tools {
                return Err(
                    AnthropicFamilyError::validation(
                        "tool_choice 'specific' requires at least one tool definition",
                    ),
                );
            }
            if is_blank_str(name.as_str()) {
                return Err(
                    AnthropicFamilyError::validation("tool_choice specific requires a non-empty tool name"),
                );
            }
            if !tools_contain(&req.tools, name.as_str()) {
                let m = concat("tool_choice specific references unknown tool: ", name.as_str());
                return Err(AnthropicFamilyError::validation(m.as_str()));
            }
            Ok(())
        },
        _ => Ok(()),
    }
}

/// Whether some stop sequence is empty.
pub open spec fn has_empty_stop(stop: Seq<Seq<char>>) -> bool {
    exists|i: int| 0 <= i < stop.len() && (#[trigger] stop[i]).len() == 0
}

/// Whether a request can be encoded at all: a model, a positive token limit,
/// sampling controls in `[0.0, 1.0]`, non-empty stop sequences and a tool
/// choice that fits the tools.
pub open spec fn spec_validate_request(req: SpecRequest) -> Result<(), EncodeError> {
    if spec_trim(req.model_id).len() == 0 {
        Err(invalid("missing model_id"@))
    } else if req.max_output_tokens == Some(0u32) {
        Err(invalid("max_output_tokens must be at least 1 for Anthropic"@))
    } else if req.temperature matches Some(t) && !t.in_unit_interval {
        Err(invalid("temperature must be in [0.0, 1.0], got "@ + req.temperature->0.text))
    } else if req.top_p matches Some(t) && !t.in_unit_interval {
        Err(invalid("top_p must be in [0.0, 1.0], got "@ + req.top_p->0.text))
    } else if has_empty_stop(req.stop) {
        Err(invalid("stop sequences must not contain empty strings"@))
    } else {
        spec_validate_tool_choice(req)
    }
}

/// Checks the request-level preconditions of the Anthropic wire contract.
#[verifier::loop_isolation(false)]
pub fn validate_request(req: &Request) -> (r: Result<(), AnthropicFamilyError>)
    ensures
        unit_outcome(r, spec_validate_request(req@)),
{
    if is_blank_str(req.model_id.as_str()) {
        return Err(AnthropicFamilyError::validation("missing model_id"));
    }
    if req.max_output_tokens == Some(0u32) {
        return Err(AnthropicFamilyError::validation("max_output_tokens must be at least 1 for Anthropic"));
    }
    match &req.temperature {
        Some(t) => {
            if !t.in_unit_interval {
                let m = concat("temperature must be in [0.0, 1.0], got ", t.text.as_str());
                return Err(AnthropicFamilyError::validation(m.as_str()));
            }
        },
        None => {},
    }
    match &req.top_p {
        Some(t) => {
            if !t.in_unit_interval {
                let m = concat("top_p must be in [0.0, 1.0], got ", t.text.as_str());
                return Err(AnthropicFamilyError::validation(m.as_str()));
            }
        },
        None => {},
    }
    let ghost stops = req@.stop;
    let mut i: usize = 0;
    while i < req.stop.len()
        invariant
            i <= req.stop.len(),
            stops == req@.stop,
            forall|k: int| 0 <= k < i ==> (#[trigger] stops[k]).len() > 0,
        decreases req.stop.len() - i,
    {
        assert(stops[i as int] == req.stop@[i as int]@);
        if req.stop[i].unicode_len() == 0 {
            return Err(AnthropicFamilyError::validation("stop sequences must not contain empty strings"));
        }
        i = i + 1;
    }
    validate_tool_choice(req)
}

/// The wire form of a tool definition, or the validation error it raises.
pub open spec fn spec_map_tool_definition(tool: SpecToolDefinition) -> Result<SpecJson, EncodeError> {
    if spec_trim(tool.name).len() == 0 {
        Err(invalid("tool definitions require non-empty names"@))
    } else if tool.name.len() > 128 {
        Err(invalid("tool '"@ + tool.name + "' name exceeds 128 characters"@))
    } else if !tool.parameters_schema.is_object() {
        Err(invalid("tool '"@ + tool.name + "' parameters_schema must be a JSON object"@))
    } else {
        Ok(
            SpecJson::Object(
                match tool.description {
                    Some(d) => seq![
                        ("description"@, SpecJson::Str(d)),
                        ("input_schema"@, tool.parameters_schema),
                        ("name"@, SpecJson::Str(tool.name)),
                    ],
                    None => seq![
                        ("input_schema"@, tool.parameters_schema),
                        ("name"@, SpecJson::Str(tool.name)),
                    ],
                },
            ),
        )
    }
}

/// Maps a tool definition to its wire form.
pub fn map_tool_definition(tool: &ToolDefinition) -> (r: Result<JsonValue, AnthropicFamilyError>)
    ensures
        json_outcome(r, spec_map_tool_definition(tool@)),
{
    if is_blank_str(tool.name.as_str()) {
        return Err(AnthropicFamilyError::validation("tool definitions require non-empty names"));
    }
    if tool.name.as_str().unicode_len() > 128 {
        let m = concat3("tool '", tool.name.as_str(), "' name exceeds 128 characters");
        return Err(AnthropicFamilyError::validation(m.as_str()));
    }
    if !tool.parameters_schema.is_object() {
        let m = concat3("tool '", tool.name.as_str(), "' parameters_schema must be a JSON object");
        return Err(AnthropicFamilyError::validation(m.as_str()));
    }
    let mut entries: Vec<(String, JsonValue)> = Vec::new();
    match &tool.description {
        Some(d) => {
            entries.push((owned("description"), string_of(d.as_str())));
        },
        None => {},
    }
    entries.push((owned("input_schema"), tool.parameters_schema.copy()));
    entries.push((owned("name"), string_of(tool.name.as_str())));
    let r = object_of(entries);
    assert(r@->Object_0 =~= spec_map_tool_definition(tool@)->Ok_0->Object_0);
    Ok(r)
}

/// The wire forms of the tools, in order; the first error wins.
pub open spec fn spec_map_tools(tools: Seq<SpecToolDefinition>) -> Result<Seq<SpecJson>, EncodeError>
    decreases tools.len(),
{
    if tools.len() == 0 {
        Ok(seq![])
    } else {
        match spec_map_tools(tools.drop_last()) {
            Err(e) => Err(e),
            Ok(done) => match spec_map_tool_definition(tools.last()) {
                Err(e) => Err(e),
                Ok(t) => Ok(done.push(t)),
            },
        }
    }
}

/// Maps every tool definition of the request to its wire form.
pub fn map_tools(req: &Request) -> (r: Result<Vec<JsonValue>, AnthropicFamilyError>)
    ensures
        match spec_map_tools(req@.tools) {
            Ok(ts) => r matches Ok(v) && v@.map_values(|x: JsonValue| x@) == ts,
            Err(k) => r matches Err(e) && error_is(e, k),
        },
{
    let ghost tv = req@.tools;
    let mut out: Vec<JsonValue> = Vec::new();
    let mut i: usize = 0;
    assert(tv.take(0) =~= Seq::<SpecToolDefinition>::empty());
    assert(out@.map_values(|x: JsonValue| x@) =~= Seq::<SpecJson>::empty());
    while i < req.tools.len()
        invariant
            i <= req.tools.len(),
            tv == req@.tools,
            spec_map_tools(tv.take(i as int)) == Ok::<Seq<SpecJson>, EncodeError>(
                out@.map_values(|x: JsonValue| x@),
            ),
        decreases req.tools.len() - i,
    {
        assert(tv.take(i + 1).drop_last() =~= tv.take(i as int));
        assert(tv.take(i + 1).last() == req.tools@[i as int]@);
        match map_tool_definition(&req.tools[i]) {
            Ok(t) => {
                let ghost before = out@.map_values(|x: JsonValue| x@);
                out.push(t);
                assert(out@.map_values(|x: JsonValue| x@) =~= before.push(t@));
            },
            Err(e) => {
                proof {
                    lemma_map_tools_error_sticks(tv, i as int + 1);
                }
                return Err(e);
            },
        }
        i = i + 1;
    }
    assert(tv.take(req.tools.len() as int) =~= tv);
    Ok(out)
}

/// Once a prefix of the tools fails to map, the whole list fails the same way.
pub proof fn lemma_map_tools_error_sticks(tools: Seq<SpecToolDefinition>, n: int)
    requires
        0 <= n <= tools.len(),
        spec_map_tools(tools.take(n)) is Err,
    ensures
        spec_map_tools(tools) == spec_map_tools(tools.take(n)),
    decreases tools.len() - n,
{
    if n < tools.len() {
        assert(tools.take(n + 1).drop_last() =~= tools.take(n));
        lemma_map_tools_error_sticks(tools, n + 1);
    } else {
        assert(tools.take(n) =~= tools);
    }
}

/// The wire form of the tool choice.
pub open spec fn spec_map_tool_choice(req: SpecRequest) -> Result<SpecJson, EncodeError> {
    match req.tool_choice {
        SpecToolChoice::Disabled => Ok(spec_type_only("none"@)),
        SpecToolChoice::Auto => Ok(spec_type_only("auto"@)),
        SpecToolChoice::Required => Ok(spec_type_only("any"@)),
        SpecToolChoice::Specific { name } => if spec_trim(name).len() == 0 {
            Err(invalid("tool_choice specific requires a non-empty tool name"@))
        } else if !has_tool(req.tools, name) {
            Err(invalid("tool_choice specific references unknown tool: "@ + name))
        } else {
            Ok(
                SpecJson::Object(
                    seq![
                        ("disable_parallel_tool_use"@, SpecJson::Bool(true)),
                        ("name"@, SpecJson::Str(name)),
                        ("type"@, SpecJson::Str("tool"@)),
                    ],
                ),
            )
        },
    }
}

/// Maps the tool choice to its wire form.
pub fn map_tool_choice(req: &Request) -> (r: Result<JsonValue, AnthropicFamilyError>)
    ensures
        json_outcome(r, spec_map_tool_choice(req@)),
{
    match &req.tool_choice {
        ToolChoice::Disabled => Ok(type_only("none")),
        ToolChoice::Auto => Ok(type_only("auto")),
        ToolChoice::Required => Ok(type_only("any")),
        ToolChoice::Specific { name } => {
            if is_blank_str(name.as_str()) {
                return Err(
                    AnthropicFamilyError::validation("tool_choice specific requires a non-empty tool name"),
                );
            }
            if !tools_contain(&req.tools, name.as_str()) {
                let m = concat("tool_choice specific references unknown tool: ", name.as_str());
                return Err(AnthropicFamilyError::validation(m.as_str()));
            }
            let mut entries: Vec<(String, JsonValue)> = Vec::new();
            entries.push((owned("disable_parallel_tool_use"), JsonValue::Bool(true)));
            entries.push((owned("name"), string_of(name.as_str())));
            entries.push((owned("type"), string_of("tool")));
            let r = object_of(entries);
            assert(r@->Object_0 =~= spec_map_tool_choice(req@)->Ok_0->Object_0);
            Ok(r)
        },
    }
}

/// The first member value of `key` among (key, value) pairs.
pub open spec fn pair_lookup(pairs: Seq<(Seq<char>, Seq<char>)>, key: Seq<char>, i: int) -> Option<Seq<char>>
    decreases pairs.len() - i,
{
    if i < 0 || i >= pairs.len() {
        None
    } else if pairs[i].0 == key {
        Some(pairs[i].1)
    } else {
        pair_lookup(pairs, key, i + 1)
    }
}

/// The metadata sent to Anthropic (only `user_id`), with the warnings after it:
/// any other key is dropped with a warning.
pub open spec fn spec_map_metadata(req: SpecRequest, ws: Seq<SpecRuntimeWarning>) -> (
    Option<SpecJson>,
    Seq<SpecRuntimeWarning>,
) {
    let ws1 = if exists|i: int| 0 <= i < req.metadata.len() && (#[trigger] req.metadata[i]).0 != "user_id"@ {
        ws.push(
            warning(
                "anthropic.encode.dropped_unsupported_metadata_keys"@,
                "anthropic metadata only supports user_id; unsupported keys dropped"@,
            ),
        )
    } else {
        ws
    };
    (
        match pair_lookup(req.metadata, "user_id"@, 0) {
            Some(u) => Some(SpecJson::Object(seq![("user_id"@, SpecJson::Str(u))])),
            None => None,
        },
        ws1,
    )
}

/// Maps request metadata to Anthropic metadata.
pub fn map_metadata(req: &Request, warnings: &mut Vec<RuntimeWarning>) -> (r: Option<JsonValue>)
    ensures
        ({
            let (m, ws) = spec_map_metadata(req@, warnings_view(old(warnings)@));
            &&& match r {
                Some(v) => m == Some(v@),
                None => m is None,
            }
            &&& warnings_view(final(warnings)@) == ws
        }),
{
    let ghost md = req@.metadata;
    let mut user: Option<&str> = None;
    let mut other = false;
    let mut i: usize = 0;
    while i < req.metadata.len()
        invariant
            i <= req.metadata.len(),
            md == req@.metadata,
            match user {
                Some(u) => pair_lookup(md, "user_id"@, 0) == Some(u@),
                None => pair_lookup(md, "user_id"@, 0) == pair_lookup(md, "user_id"@, i as int),
            },
            other == exists|k: int| 0 <= k < i && (#[trigger] md[k]).0 != "user_id"@,
        decreases req.metadata.len() - i,
    {
        assert(md[i as int] == (req.metadata@[i as int].0@, req.metadata@[i as int].1@));
        if str_equal(req.metadata[i].0.as_str(), "user_id") {
            if user.is_none() {
                user = Some(req.metadata[i].1.as_str());
            }
        } else {
            other = true;
        }
        i = i + 1;
    }
    if other {
        push_warning(
            warnings,
            "anthropic.encode.dropped_unsupported_metadata_keys",
            "anthropic metadata only supports user_id; unsupported keys dropped",
        );
    }
    match user {
        Some(u) => {
            let mut entries: Vec<(String, JsonValue)> = Vec::new();
            entries.push((owned("user_id"), string_of(u)));
            let r = object_of(entries);
            assert(r@->Object_0 =~= seq![("user_id"@, SpecJson::Str(u@))]);
            Some(r)
        },
        None => None,
    }
}

/// The role of a message on the Anthropic wire.
#[derive(Debug, Clone, Copy, PartialEq, Eq, Structural)]
pub enum WireRole {
    User,
    Assistant,
}

/// The text of a wire role.
pub open spec fn role_text(role: WireRole) -> Seq<char> {
    match role {
        WireRole::User => "user"@,
        WireRole::Assistant => "assistant"@,
    }
}

/// A message in Anthropic wire form: a role and content blocks.
#[derive(Debug, PartialEq)]
pub struct WireMessage {
    pub role: WireRole,
    pub content: Vec<JsonValue>,
}

/// Model of [`WireMessage`].
pub struct SpecWireMessage {
    pub role: WireRole,
    pub content: Seq<SpecJson>,
}

impl View for WireMessage {
    type V = SpecWireMessage;

    open spec fn view(&self) -> SpecWireMessage {
        SpecWireMessage { role: self.role, content: self.content@.map_values(|x: JsonValue| x@) }
    }
}

/// Model of a list of wire messages.
pub open spec fn wire_view(ms: Seq<WireMessage>) -> Seq<SpecWireMessage> {
    ms.map_values(|m: WireMessage| m@)
}

/// `{"content": [...], "role": ...}`.
pub open spec fn spec_wire_message_json(m: SpecWireMessage) -> SpecJson {
    SpecJson::Object(
        seq![
            ("content"@, SpecJson::Array(m.content)),
            ("role"@, SpecJson::Str(role_text(m.role))),
        ],
    )
}

impl WireMessage {
    /// The message as a JSON object.
    pub fn into_json(self) -> (r: JsonValue)
        ensures
            r@ == spec_wire_message_json(self@),
    {
        let ghost sv = self@;
        let role = match self.role {
            WireRole::User => string_of("user"),
            WireRole::Assistant => string_of("assistant"),
        };
        let mut entries: Vec<(String, JsonValue)> = Vec::new();
        entries.push((owned("content"), array_of(self.content)));
        entries.push((owned("role"), role));
        let r = object_of(entries);
        assert(r@->Object_0 =~= spec_wire_message_json(sv)->Object_0);
        r
    }
}

/// `{"id": ..., "input": ..., "name": ..., "type": "tool_use"}`.
pub open spec fn spec_tool_use_block(id: Seq<char>, name: Seq<char>, input: SpecJson) -> SpecJson {
    SpecJson::Object(
        seq![
            ("id"@, SpecJson::Str(id)),
            ("input"@, input),
            ("name"@, SpecJson::Str(name)),
            ("type"@, SpecJson::Str("tool_use"@)),
        ],
    )
}

/// `{"content": [...], "tool_use_id": ..., "type": "tool_result"}`.
pub open spec fn spec_tool_result_block(tool_use_id: Seq<char>, content: Seq<SpecJson>) -> SpecJson {
    SpecJson::Object(
        seq![
            ("content"@, SpecJson::Array(content)),
            ("tool_use_id"@, SpecJson::Str(tool_use_id)),
            ("type"@, SpecJson::Str("tool_result"@)),
        ],
    )
}

/// The text blocks of parts that are all text, or `None` when one is not.
pub open spec fn spec_text_blocks_of(parts: Seq<SpecContentPart>) -> Option<Seq<SpecJson>>
    decreases parts.len(),
{
    if parts.len() == 0 {
        Some(seq![])
    } else {
        match spec_text_blocks_of(parts.drop_last()) {
            None => None,
            Some(bs) => match parts.last() {
                SpecContentPart::Text { text } => Some(bs.push(spec_text_block(text))),
                _ => None,
            },
        }
    }
}

/// Once a prefix has a non-text part, so does the whole list.
pub proof fn lemma_text_blocks_none_sticks(parts: Seq<SpecContentPart>, n: int)
    requires
        0 <= n <= parts.len(),
        spec_text_blocks_of(parts.take(n)) is None,
    ensures
        spec_text_blocks_of(parts) is None,
    decreases parts.len() - n,
{
    if n < parts.len() {
        assert(parts.take(n + 1).drop_last() =~= parts.take(n));
        lemma_text_blocks_none_sticks(parts, n + 1);
    } else {
        assert(parts.take(n) =~= parts);
    }
}

/// Appends the text blocks of `parts` to `out`; `false` (and `out` partly
/// extended) when a part is not text.
fn append_text_blocks(parts: &Vec<ContentPart>, out: &mut Vec<JsonValue>) -> (r: bool)
    ensures
        r == spec_text_blocks_of(parts_view(parts@)) is Some,
        r ==> final(out)@.map_values(|x: JsonValue| x@) == old(out)@.map_values(|x: JsonValue| x@)
            + spec_text_blocks_of(parts_view(parts@))->0,
{
    let ghost pv = parts_view(parts@);
    let ghost base = out@.map_values(|x: JsonValue| x@);
    let mut i: usize = 0;
    assert(pv.take(0) =~= Seq::<SpecContentPart>::empty());
    assert(out@.map_values(|x: JsonValue| x@) =~= base + Seq::<SpecJson>::empty());
    while i < parts.len()
        invariant
            i <= parts.len(),
            pv == parts_view(parts@),
            base == old(out)@.map_values(|x: JsonValue| x@),
            spec_text_blocks_of(pv.take(i as int)) is Some,
            out@.map_values(|x: JsonValue| x@) == base + spec_text_blocks_of(pv.take(i as int))->0,
        decreases parts.len() - i,
    {
        assert(pv.take(i + 1).drop_last() =~= pv.take(i as int));
        assert(pv.take(i + 1).last() == parts@[i as int]@);
        match &parts[i] {
            ContentPart::Text { text } => {
                let ghost before = out@.map_values(|x: JsonValue| x@);
                out.push(text_block(text.as_str()));
                assert(out@.map_values(|x: JsonValue| x@) =~= before.push(spec_text_block(text@)));
            },
            _ => {
                proof {
                    lemma_text_blocks_none_sticks(pv, i as int + 1);
                }
                return false;
            },
        }
        i = i + 1;
    }
    assert(pv.take(parts.len() as int) =~= pv);
    true
}

/// The text blocks a tool result is sent as: its text, its JSON in canonical
/// text, or its parts, which must all be text.
pub open spec fn spec_tool_result_content_as_text_blocks(tr: SpecToolResult) -> Result<
    Seq<SpecJson>,
    EncodeError,
> {
    match tr.content {
        SpecToolResultContent::Text { text } => Ok(seq![spec_text_block(text)]),
        SpecToolResultContent::Json { value } => Ok(
            seq![spec_text_block(spec_stable_json_string(spec_canonicalize(value)))],
        ),
        SpecToolResultContent::Parts { parts } => match spec_text_blocks_of(parts) {
            Some(bs) => Ok(bs),
            None => Err(invalid("tool_result parts content must contain only text parts"@)),
        },
    }
}

/// Renders tool result content as Anthropic text blocks.
pub fn tool_result_content_as_text_blocks(tool_result: &ToolResult) -> (r: Result<
    Vec<JsonValue>,
    AnthropicFamilyError,
>)
    ensures
        match spec_tool_result_content_as_text_blocks(tool_result@) {
            Ok(bs) => r matches Ok(v) && v@.map_values(|x: JsonValue| x@) == bs,
            Err(k) => r matches Err(e) && error_is(e, k),
        },
{
    let ghost tv = tool_result@;
    let mut out: Vec<JsonValue> = Vec::new();
    match &tool_result.content {
        ToolResultContent::Text { text } => {
            out.push(text_block(text.as_str()));
            assert(out@.map_values(|x: JsonValue| x@) =~= seq![spec_text_block(text@)]);
            Ok(out)
        },
        ToolResultContent::Json { value } => {
            let canonical = canonicalize_json(value);
            let text = stable_json_string(&canonical);
            out.push(text_block(text.as_str()));
            assert(out@.map_values(|x: JsonValue| x@) =~= seq![spec_text_block(text@)]);
            Ok(out)
        },
        ToolResultContent::Parts { parts } => {
            assert(tv.content->Parts_parts =~= parts_view(parts@));
            assert(out@.map_values(|x: JsonValue| x@) =~= Seq::<SpecJson>::empty());
            if append_text_blocks(parts, &mut out) {
                assert(out@.map_values(|x: JsonValue| x@) =~= spec_text_blocks_of(parts_view(parts@))->0);
                Ok(out)
            } else {
                Err(AnthropicFamilyError::validation("tool_result parts content must contain only text parts"))
            }
        },
    }
}

/// Model of a list of messages.
pub open spec fn messages_view(ms: Seq<Message>) -> Seq<SpecMessage> {
    ms.map_values(|m: Message| m@)
}

/// How many messages from `i` on are system messages, counted from `i`, plus `i`.
pub open spec fn system_prefix_len(ms: Seq<SpecMessage>, i: int) -> int
    decreases ms.len() - i,
{
    if 0 <= i < ms.len() && ms[i].role == MessageRole::System {
        system_prefix_len(ms, i + 1)
    } else {
        i
    }
}

/// The system prefix ends within the list.
pub proof fn lemma_system_prefix_len_bounds(ms: Seq<SpecMessage>, i: int)
    requires
        0 <= i <= ms.len(),
    ensures
        i <= system_prefix_len(ms, i) <= ms.len(),
    decreases ms.len() - i,
{
    if i < ms.len() && ms[i].role == MessageRole::System {
        lemma_system_prefix_len_bounds(ms, i + 1);
    }
}

/// The text blocks of system messages whose parts are all text.
pub open spec fn spec_system_blocks(ms: Seq<SpecMessage>) -> Option<Seq<SpecJson>>
    decreases ms.len(),
{
    if ms.len() == 0 {
        Some(seq![])
    } else {
        match spec_system_blocks(ms.drop_last()) {
            None => None,
            Some(bs) => match spec_text_blocks_of(ms.last().content) {
                None => None,
                Some(more) => Some(bs + more),
            },
        }
    }
}

/// Once a prefix of the system messages has a non-text part, so does the list.
pub proof fn lemma_system_blocks_none_sticks(ms: Seq<SpecMessage>, n: int)
    requires
        0 <= n <= ms.len(),
        spec_system_blocks(ms.take(n)) is None,
    ensures
        spec_system_blocks(ms) is None,
    decreases ms.len() - n,
{
    if n < ms.len() {
        assert(ms.take(n + 1).drop_last() =~= ms.take(n));
        lemma_system_blocks_none_sticks(ms, n + 1);
    } else {
        assert(ms.take(n) =~= ms);
    }
}

/// The system blocks and where the other messages start: system messages must
/// form a prefix and hold only text.
pub open spec fn spec_map_system_prefix(ms: Seq<SpecMessage>) -> Result<
    (Option<Seq<SpecJson>>, int),
    EncodeError,
> {
    let idx = system_prefix_len(ms, 0);
    if exists|j: int| idx <= j < ms.len() && (#[trigger] ms[j]).role == MessageRole::System {
        Err(invalid("system messages must form a contiguous prefix for Anthropic"@))
    } else {
        match spec_system_blocks(ms.take(idx)) {
            None => Err(invalid("system messages only support text content"@)),
            Some(bs) => Ok(
                (
                    if bs.len() == 0 {
                        None
                    } else {
                        Some(bs)
                    },
                    idx,
                ),
            ),
        }
    }
}

/// Splits off the system prefix: its text blocks (none when empty) and the
/// index of the first other message.
#[verifier::loop_isolation(false)]
pub fn map_system_prefix(req: &Request) -> (r: Result<(Option<Vec<JsonValue>>, usize), AnthropicFamilyError>)
    ensures
        match spec_map_system_prefix(messages_view(req.messages@)) {
            Ok((bs, idx)) => r matches Ok((v, i)) && i == idx && match v {
                Some(x) => bs == Some(x@.map_values(|j: JsonValue| j@)),
                None => bs is None,
            },
            Err(k) => r matches Err(e) && error_is(e, k),
        },
{
    let ghost ms = messages_view(req.messages@);
    let n = req.messages.len();
    let mut index: usize = 0;
    while index < n && req.messages[index].role == MessageRole::System
        invariant
            index <= n,
            n == req.messages.len(),
            system_prefix_len(ms, index as int) == system_prefix_len(ms, 0),
        decreases n - index,
    {
        assert(ms[index as int] == req.messages@[index as int]@);
        index = index + 1;
    }
    if index < n {
        assert(ms[index as int] == req.messages@[index as int]@);
    }
    let mut j: usize = index;
    while j < n
        invariant
            index <= j <= n,
            n == req.messages.len(),
            index as int == system_prefix_len(ms, 0),
            forall|q: int| index <= q < j ==> (#[trigger] ms[q]).role != MessageRole::System,
        decreases n - j,
    {
        assert(ms[j as int] == req.messages@[j as int]@);
        if req.messages[j].role == MessageRole::System {
            return Err(
                AnthropicFamilyError::validation("system messages must form a contiguous prefix for Anthropic"),
            );
        }
        j = j + 1;
    }
    let ghost prefix = ms.take(index as int);
    let mut blocks: Vec<JsonValue> = Vec::new();
    let mut k: usize = 0;
    assert(prefix.take(0) =~= Seq::<SpecMessage>::empty());
    assert(blocks@.map_values(|x: JsonValue| x@) =~= Seq::<SpecJson>::empty());
    while k < index
        invariant
            k <= index <= n,
            n == req.messages.len(),
            prefix == ms.take(index as int),
            spec_system_blocks(prefix.take(k as int)) == Some(blocks@.map_values(|x: JsonValue| x@)),
        decreases index - k,
    {
        assert(prefix.take(k + 1).drop_last() =~= prefix.take(k as int));
        assert(prefix.take(k + 1).last() == req.messages@[k as int]@);
        if !append_text_blocks(&req.messages[k].content, &mut blocks) {
            proof {
                lemma_system_blocks_none_sticks(prefix, k as int + 1);
            }
            return Err(AnthropicFamilyError::validation("system messages only support text content"));
        }
        k = k + 1;
    }
    assert(prefix.take(index as int) =~= prefix);
    if blocks.len() == 0 {
        Ok((None, index))
    } else {
        Ok((Some(blocks), index))
    }
}

/// The wire role of a non-system message role.
pub open spec fn wire_role(role: MessageRole) -> WireRole {
    match role {
        MessageRole::Assistant => WireRole::Assistant,
        _ => WireRole::User,
    }
}

/// Content blocks and the tool call ids seen so far, after one more part of a
/// message with role `role`, or the error the part raises.
pub open spec fn spec_map_part(
    role: MessageRole,
    part: SpecContentPart,
    blocks: Seq<SpecJson>,
    seen: Seq<Seq<char>>,
) -> Result<(Seq<SpecJson>, Seq<Seq<char>>), EncodeError> {
    match part {
        SpecContentPart::Text { text } => if role == MessageRole::Tool {
            Err(invalid("tool messages must contain tool_result content only"@))
        } else {
            Ok((blocks.push(spec_text_block(text)), seen))
        },
        SpecContentPart::ToolCall { tool_call } => if role != MessageRole::Assistant {
            Err(invalid("tool_call content is only valid in assistant messages"@))
        } else if spec_trim(tool_call.id).len() == 0 {
            Err(invalid("tool_call content requires a non-empty tool_call id"@))
        } else if spec_trim(tool_call.name).len() == 0 {
            Err(invalid("tool_call content requires a non-empty tool_call name"@))
        } else if !tool_call.arguments_json.is_object() {
            Err(invalid("tool_call '"@ + tool_call.name + "' arguments_json must be a JSON object"@))
        } else if seen.contains(tool_call.id) {
            Err(violation("duplicate assistant tool_call id '"@ + tool_call.id + "'"@))
        } else {
            Ok(
                (
                    blocks.push(
                        spec_tool_use_block(tool_call.id, tool_call.name, tool_call.arguments_json),
                    ),
                    seen.push(tool_call.id),
                ),
            )
        },
        SpecContentPart::ToolResult { tool_result } => if role != MessageRole::Tool {
            Err(invalid("tool_result content is only valid in tool messages"@))
        } else if spec_trim(tool_result.tool_call_id).len() == 0 {
            Err(invalid("tool_result content requires a non-empty tool_call_id"@))
        } else if !seen.contains(tool_result.tool_call_id) {
            Err(violation("tool_result references unknown tool_call_id: "@ + tool_result.tool_call_id))
        } else {
            match spec_tool_result_content_as_text_blocks(tool_result) {
                Err(e) => Err(e),
                Ok(content) => Ok(
                    (blocks.push(spec_tool_result_block(tool_result.tool_call_id, content)), seen),
                ),
            }
        },
    }
}

/// The effect of the parts of a message, in order; the first error wins.
pub open spec fn spec_map_parts(
    role: MessageRole,
    parts: Seq<SpecContentPart>,
    blocks: Seq<SpecJson>,
    seen: Seq<Seq<char>>,
) -> Result<(Seq<SpecJson>, Seq<Seq<char>>), EncodeError>
    decreases parts.len(),
{
    if parts.len() == 0 {
        Ok((blocks, seen))
    } else {
        match spec_map_parts(role, parts.drop_last(), blocks, seen) {
            Err(e) => Err(e),
            Ok((b, s)) => spec_map_part(role, parts.last(), b, s),
        }
    }
}

/// A message in wire form with the tool call ids seen after it, or its error.
pub open spec fn spec_map_message(m: SpecMessage, seen: Seq<Seq<char>>) -> Result<
    (SpecWireMessage, Seq<Seq<char>>),
    EncodeError,
> {
    match spec_map_parts(m.role, m.content, seq![], seen) {
        Err(e) => Err(e),
        Ok((bs, s)) => if bs.len() == 0 {
            Err(invalid("message content must contain at least one encodable part"@))
        } else {
            Ok((SpecWireMessage { role: wire_role(m.role), content: bs }, s))
        },
    }
}

/// The non-system messages in wire form, in order; the first error wins.
pub open spec fn spec_map_messages(ms: Seq<SpecMessage>, seen: Seq<Seq<char>>) -> Result<
    (Seq<SpecWireMessage>, Seq<Seq<char>>),
    EncodeError,
>
    decreases ms.len(),
{
    if ms.len() == 0 {
        Ok((seq![], seen))
    } else {
        match spec_map_messages(ms.drop_last(), seen) {
            Err(e) => Err(e),
            Ok((done, s)) => match spec_map_message(ms.last(), s) {
                Err(e) => Err(e),
                Ok((w, s2)) => Ok((done.push(w), s2)),
            },
        }
    }
}

/// Model of a list of ids.
pub open spec fn ids_view(ids: Seq<String>) -> Seq<Seq<char>> {
    ids.map_values(|s: String| s@)
}

/// Whether `ids` holds `id`.
fn ids_contain(ids: &Vec<String>, id: &str) -> (r: bool)
    ensures
        r == ids_view(ids@).contains(id@),
{
    let mut i: usize = 0;
    while i < ids.len()
        invariant
            i <= ids.len(),
            forall|k: int| 0 <= k < i ==> (#[trigger] ids@[k])@ != id@,
        decreases ids.len() - i,
    {
        if str_equal(ids[i].as_str(), id) {
            assert(ids_view(ids@)[i as int] == id@);
            return true;
        }
        i = i + 1;
    }
    assert forall|k: int| 0 <= k < ids_view(ids@).len() implies ids_view(ids@)[k] != id@ by {
        assert(ids_view(ids@)[k] == ids@[k]@);
    }
    false
}

/// Maps one part of a message, appending its block and any new tool call id.
pub fn map_part(
    role: MessageRole,
    part: &ContentPart,
    blocks: &mut Vec<JsonValue>,
    seen: &mut Vec<String>,
) -> (r: Result<(), AnthropicFamilyError>)
    ensures
        match spec_map_part(role, part@, old(blocks)@.map_values(|x: JsonValue| x@), ids_view(old(seen)@)) {
            Ok((b, s)) => r is Ok && final(blocks)@.map_values(|x: JsonValue| x@) == b && ids_view(
                final(seen)@,
            ) == s,
            Err(k) => r matches Err(e) && error_is(e, k),
        },
{
    let ghost bv = blocks@.map_values(|x: JsonValue| x@);
    let ghost sv = ids_view(seen@);
    match part {
        ContentPart::Text { text } => {
            if role == MessageRole::Tool {
                return Err(AnthropicFamilyError::validation("tool messages must contain tool_result content only"));
            }
            blocks.push(text_block(text.as_str()));
            assert(blocks@.map_values(|x: JsonValue| x@) =~= bv.push(spec_text_block(text@)));
            Ok(())
        },
        ContentPart::ToolCall { tool_call } => {
            if role != MessageRole::Assistant {
                return Err(AnthropicFamilyError::validation("tool_call content is only valid in assistant messages"));
            }
            if is_blank_str(tool_call.id.as_str()) {
                return Err(AnthropicFamilyError::validation("tool_call content requires a non-empty tool_call id"));
            }
            if is_blank_str(tool_call.name.as_str()) {
                return Err(AnthropicFamilyError::validation("tool_call content requires a non-empty tool_call name"));
            }
            if !tool_call.arguments_json.is_object() {
                let m = concat3("tool_call '", tool_call.name.as_str(), "' arguments_json must be a JSON object");
                return Err(AnthropicFamilyError::validation(m.as_str()));
            }
            if ids_contain(seen, tool_call.id.as_str()) {
                let m = concat3("duplicate assistant tool_call id '", tool_call.id.as_str(), "'");
                return Err(AnthropicFamilyError::protocol_violation(m.as_str()));
            }
            seen.push(tool_call.id.clone());
            assert(ids_view(seen@) =~= sv.push(tool_call.id@));
            let mut entries: Vec<(String, JsonValue)> = Vec::new();
            entries.push((owned("id"), string_of(tool_call.id.as_str())));
            entries.push((owned("input"), tool_call.arguments_json.copy()));
            entries.push((owned("name"), string_of(tool_call.name.as_str())));
            entries.push((owned("type"), string_of("tool_use")));
            let b = object_of(entries);
            assert(b@->Object_0 =~= spec_tool_use_block(tool_call.id@, tool_call.name@, tool_call.arguments_json@)->Object_0);
            blocks.push(b);
            assert(blocks@.map_values(|x: JsonValue| x@) =~= bv.push(
                spec_tool_use_block(tool_call.id@, tool_call.name@, tool_call.arguments_json@),
            ));
            Ok(())
        },
        ContentPart::ToolResult { tool_result } => {
            if role != MessageRole::Tool {
                return Err(AnthropicFamilyError::validation("tool_result content is only valid in tool messages"));
            }
            if is_blank_str(tool_result.tool_call_id.as_str()) {
                return Err(AnthropicFamilyError::validation("tool_result content requires a non-empty tool_call_id"));
            }
            if !ids_contain(seen, tool_result.tool_call_id.as_str()) {
                let m = concat(
                    "tool_result references unknown tool_call_id: ",
                    tool_result.tool_call_id.as_str(),
                );
                return Err(AnthropicFamilyError::protocol_violation(m.as_str()));
            }
            let content = match tool_result_content_as_text_blocks(tool_result) {
                Ok(c) => c,
                Err(e) => {
                    return Err(e);
                },
            };
            let ghost cv = content@.map_values(|x: JsonValue| x@);
            let mut entries: Vec<(String, JsonValue)> = Vec::new();
            entries.push((owned("content"), array_of(content)));
            entries.push((owned("tool_use_id"), string_of(tool_result.tool_call_id.as_str())));
            entries.push((owned("type"), string_of("tool_result")));
            let b = object_of(entries);
            assert(b@->Object_0 =~= spec_tool_result_block(tool_result.tool_call_id@, cv)->Object_0);
            blocks.push(b);
            assert(blocks@.map_values(|x: JsonValue| x@) =~= bv.push(
                spec_tool_result_block(tool_result.tool_call_id@, cv),
            ));
            Ok(())
        },
    }
}

/// Once a prefix of the parts fails, the whole list fails the same way.
pub proof fn lemma_map_parts_error_sticks(
    role: MessageRole,
    parts: Seq<SpecContentPart>,
    blocks: Seq<SpecJson>,
    seen: Seq<Seq<char>>,
    n: int,
)
    requires
        0 <= n <= parts.len(),
        spec_map_parts(role, parts.take(n), blocks, seen) is Err,
    ensures
        spec_map_parts(role, parts, blocks, seen) == spec_map_parts(role, parts.take(n), blocks, seen),
    decreases parts.len() - n,
{
    if n < parts.len() {
        assert(parts.take(n + 1).drop_last() =~= parts.take(n));
        lemma_map_parts_error_sticks(role, parts, blocks, seen, n + 1);
    } else {
        assert(parts.take(n) =~= parts);
    }
}

/// Maps one non-system message to wire form.
pub fn map_message(message: &Message, seen: &mut Vec<String>) -> (r: Result<WireMessage, AnthropicFamilyError>)
    requires
        message.role != MessageRole::System,
    ensures
        match spec_map_message(message@, ids_view(old(seen)@)) {
            Ok((w, s)) => r matches Ok(x) && x@ == w && ids_view(final(seen)@) == s,
            Err(k) => r matches Err(e) && error_is(e, k),
        },
{
    let ghost pv = message@.content;
    let ghost seen0 = ids_view(seen@);
    let mut blocks: Vec<JsonValue> = Vec::new();
    let mut k: usize = 0;
    assert(pv.take(0) =~= Seq::<SpecContentPart>::empty());
    assert(blocks@.map_values(|x: JsonValue| x@) =~= Seq::<SpecJson>::empty());
    while k < message.content.len()
        invariant
            k <= message.content.len(),
            pv == message@.content,
            seen0 == ids_view(old(seen)@),
            spec_map_parts(message.role, pv.take(k as int), seq![], seen0) == Ok::<
                (Seq<SpecJson>, Seq<Seq<char>>),
                EncodeError,
            >((blocks@.map_values(|x: JsonValue| x@), ids_view(seen@))),
        decreases message.content.len() - k,
    {
        assert(pv.take(k + 1).drop_last() =~= pv.take(k as int));
        assert(pv.take(k + 1).last() == message.content@[k as int]@);
        match map_part(message.role, &message.content[k], &mut blocks, seen) {
            Ok(()) => {},
            Err(e) => {
                proof {
                    lemma_map_parts_error_sticks(message.role, pv, seq![], seen0, k as int + 1);
                }
                return Err(e);
            },
        }
        k = k + 1;
    }
    assert(pv.take(message.content.len() as int) =~= pv);
    if blocks.len() == 0 {
        return Err(AnthropicFamilyError::validation("message content must contain at least one encodable part"));
    }
    let role = if message.role == MessageRole::Assistant {
        WireRole::Assistant
    } else {
        WireRole::User
    };
    Ok(WireMessage { role, content: blocks })
}

/// Once a prefix of the messages fails, the whole list fails the same way.
pub proof fn lemma_map_messages_error_sticks(ms: Seq<SpecMessage>, seen: Seq<Seq<char>>, n: int)
    requires
        0 <= n <= ms.len(),
        spec_map_messages(ms.take(n), seen) is Err,
    ensures
        spec_map_messages(ms, seen) == spec_map_messages(ms.take(n), seen),
    decreases ms.len() - n,
{
    if n < ms.len() {
        assert(ms.take(n + 1).drop_last() =~= ms.take(n));
        lemma_map_messages_error_sticks(ms, seen, n + 1);
    } else {
        assert(ms.take(n) =~= ms);
    }
}

/// Maps the messages from `start` on, none of them a system message, to wire form.
pub fn map_non_system_messages(messages: &Vec<Message>, start: usize) -> (r: Result<
    Vec<WireMessage>,
    AnthropicFamilyError,
>)
    requires
        start <= messages.len(),
        forall|j: int| start <= j < messages.len() ==> (#[trigger] messages@[j]).role != MessageRole::System,
    ensures
        match spec_map_messages(messages_view(messages@).skip(start as int), seq![]) {
            Ok((ws, _)) => r matches Ok(v) && wire_view(v@) == ws,
            Err(k) => r matches Err(e) && error_is(e, k),
        },
{
    let ghost ms = messages_view(messages@).skip(start as int);
    let mut mapped: Vec<WireMessage> = Vec::new();
    let mut seen: Vec<String> = Vec::new();
    let mut j: usize = start;
    assert(ms.take(0) =~= Seq::<SpecMessage>::empty());
    assert(wire_view(mapped@) =~= Seq::<SpecWireMessage>::empty());
    assert(ids_view(seen@) =~= Seq::<Seq<char>>::empty());
    while j < messages.len()
        invariant
            start <= j <= messages.len(),
            ms == messages_view(messages@).skip(start as int),
            forall|q: int| start <= q < messages.len() ==> (#[trigger] messages@[q]).role != MessageRole::System,
            spec_map_messages(ms.take(j - start), seq![]) == Ok::<
                (Seq<SpecWireMessage>, Seq<Seq<char>>),
                EncodeError,
            >((wire_view(mapped@), ids_view(seen@))),
        decreases messages.len() - j,
    {
        assert(ms.take(j - start + 1).drop_last() =~= ms.take(j - start));
        assert(ms.take(j - start + 1).last() == messages@[j as int]@);
        match map_message(&messages[j], &mut seen) {
            Ok(w) => {
                let ghost before = wire_view(mapped@);
                mapped.push(w);
                assert(wire_view(mapped@) =~= before.push(w@));
            },
            Err(e) => {
                proof {
                    lemma_map_messages_error_sticks(ms, seq![], j - start + 1);
                }
                return Err(e);
            },
        }
        j = j + 1;
    }
    assert(ms.take(messages.len() - start) =~= ms);
    Ok(mapped)
}

/// Whether a content block is a `tool_result` block.
pub open spec fn is_tool_result_block(b: SpecJson) -> bool {
    b.str_at("type"@) == Some("tool_result"@)
}

/// The `tool_result` blocks of `bs`, in order.
pub open spec fn tool_result_blocks(bs: Seq<SpecJson>) -> Seq<SpecJson>
    decreases bs.len(),
{
    if bs.len() == 0 {
        seq![]
    } else if is_tool_result_block(bs.last()) {
        tool_result_blocks(bs.drop_last()).push(bs.last())
    } else {
        tool_result_blocks(bs.drop_last())
    }
}

/// The blocks of `bs` other than `tool_result` blocks, in order.
pub open spec fn other_blocks(bs: Seq<SpecJson>) -> Seq<SpecJson>
    decreases bs.len(),
{
    if bs.len() == 0 {
        seq![]
    } else if is_tool_result_block(bs.last()) {
        other_blocks(bs.drop_last())
    } else {
        other_blocks(bs.drop_last()).push(bs.last())
    }
}

/// User content with its `tool_result` blocks moved to the front, each group
/// keeping its order.
pub open spec fn spec_reorder_tool_results_first(bs: Seq<SpecJson>) -> Seq<SpecJson> {
    tool_result_blocks(bs) + other_blocks(bs)
}

/// Moves the `tool_result` blocks of user content to the front, keeping the
/// order within each group.
pub fn reorder_user_content_tool_results_first(content: &mut Vec<JsonValue>)
    ensures
        final(content)@.map_values(|x: JsonValue| x@) == spec_reorder_tool_results_first(
            old(content)@.map_values(|x: JsonValue| x@),
        ),
{
    let ghost orig = content@.map_values(|x: JsonValue| x@);
    let mut rest: Vec<JsonValue> = Vec::new();
    std::mem::swap(&mut rest, content);
    let mut tool_results: Vec<JsonValue> = Vec::new();
    let mut others: Vec<JsonValue> = Vec::new();
    let ghost n = orig.len();
    assert(orig.take(0) =~= Seq::<SpecJson>::empty());
    assert(rest@.map_values(|x: JsonValue| x@) =~= orig.skip(0));
    assert(tool_results@.map_values(|x: JsonValue| x@) =~= Seq::<SpecJson>::empty());
    assert(others@.map_values(|x: JsonValue| x@) =~= Seq::<SpecJson>::empty());
    while rest.len() > 0
        invariant
            orig.len() == n,
            rest.len() <= n,
            rest@.map_values(|x: JsonValue| x@) == orig.skip(n - rest.len()),
            tool_results@.map_values(|x: JsonValue| x@) == tool_result_blocks(orig.take(n - rest.len())),
            others@.map_values(|x: JsonValue| x@) == other_blocks(orig.take(n - rest.len())),
        decreases rest.len(),
    {
        let ghost k = n - rest.len();
        let ghost rv = rest@.map_values(|x: JsonValue| x@);
        assert(rv[0] == orig[k]);
        let block = rest.remove(0);
        assert(block@ == rv[0]);
        assert(rest@.map_values(|x: JsonValue| x@) =~= rv.drop_first());
        assert(rv.drop_first() =~= orig.skip(k + 1));
        assert(orig.take(k + 1).drop_last() =~= orig.take(k));
        assert(orig.take(k + 1).last() == orig[k]);
        let is_tool_result = match crate::json::json_str(&block, "type") {
            Some(t) => str_equal(t, "tool_result"),
            None => false,
        };
        if is_tool_result {
            let ghost before = tool_results@.map_values(|x: JsonValue| x@);
            tool_results.push(block);
            assert(tool_results@.map_values(|x: JsonValue| x@) =~= before.push(orig[k]));
        } else {
            let ghost before = others@.map_values(|x: JsonValue| x@);
            others.push(block);
            assert(others@.map_values(|x: JsonValue| x@) =~= before.push(orig[k]));
        }
    }
    assert(orig.take(n as int) =~= orig);
    let ghost tv = tool_results@.map_values(|x: JsonValue| x@);
    let ghost ov = others@.map_values(|x: JsonValue| x@);
    tool_results.append(&mut others);
    assert(tool_results@.map_values(|x: JsonValue| x@) =~= tv + ov);
    *content = tool_results;
}

/// The content a message is sent with: user content has its tool results first.
#[verifier::opaque]
pub open spec fn ordered_content(role: WireRole, content: Seq<SpecJson>) -> Seq<SpecJson> {
    if role == WireRole::User {
        spec_reorder_tool_results_first(content)
    } else {
        content
    }
}

/// Consecutive messages of one role merged into one; user content puts tool
/// results first.
pub open spec fn spec_merge_consecutive_messages(ms: Seq<SpecWireMessage>) -> Seq<SpecWireMessage>
    decreases ms.len(),
{
    if ms.len() == 0 {
        seq![]
    } else {
        let merged = spec_merge_consecutive_messages(ms.drop_last());
        let m = ms.last();
        if merged.len() > 0 && merged.last().role == m.role {
            merged.update(
                merged.len() - 1,
                SpecWireMessage { role: m.role, content: ordered_content(m.role, merged.last().content + m.content) },
            )
        } else {
            merged.push(SpecWireMessage { role: m.role, content: ordered_content(m.role, m.content) })
        }
    }
}

/// Merges consecutive messages of the same role.
pub fn merge_consecutive_messages(messages: Vec<WireMessage>) -> (r: Vec<WireMessage>)
    ensures
        wire_view(r@) == spec_merge_consecutive_messages(wire_view(messages@)),
{
    let ghost orig = wire_view(messages@);
    let ghost n = orig.len();
    let mut rest = messages;
    let mut merged: Vec<WireMessage> = Vec::new();
    assert(orig.take(0) =~= Seq::<SpecWireMessage>::empty());
    assert(wire_view(rest@) =~= orig.skip(0));
    assert(wire_view(merged@) =~= Seq::<SpecWireMessage>::empty());
    while rest.len() > 0
        invariant
            orig.len() == n,
            rest.len() <= n,
            wire_view(rest@) == orig.skip(n - rest.len()),
            wire_view(merged@) == spec_merge_consecutive_messages(orig.take(n - rest.len())),
        decreases rest.len(),
    {
        proof {
            reveal(ordered_content);
        }
        let ghost k = n - rest.len();
        let ghost rv = wire_view(rest@);
        assert(rv[0] == orig[k]);
        let message = rest.remove(0);
        assert(message@ == rv[0]);
        assert(wire_view(rest@) =~= rv.drop_first());
        assert(rv.drop_first() =~= orig.skip(k + 1));
        assert(orig.take(k + 1).drop_last() =~= orig.take(k));
        assert(orig.take(k + 1).last() == orig[k]);
        let ghost mv = wire_view(merged@);
        let same_role = merged.len() > 0 && merged[merged.len() - 1].role == message.role;
        if same_role {
            let mut last = merged.pop().unwrap();
            assert(last@ == mv.last());
            let WireMessage { role, content } = message;
            let mut more = content;
            let ghost lc = last.content@.map_values(|x: JsonValue| x@);
            let ghost mc = more@.map_values(|x: JsonValue| x@);
            assert(lc == mv.last().content);
            assert(mc == orig[k].content);
            assert(role == orig[k].role);
            last.content.append(&mut more);
            assert(last.content@.map_values(|x: JsonValue| x@) =~= lc + mc);
            if last.role == WireRole::User {
                reorder_user_content_tool_results_first(&mut last.content);
            }
            merged.push(last);
            assert(wire_view(merged@) =~= mv.update(
                mv.len() - 1,
                SpecWireMessage { role: orig[k].role, content: ordered_content(orig[k].role, mv.last().content + orig[k].content) },
            ));
        } else {
            let mut m = message;
            if m.role == WireRole::User {
                reorder_user_content_tool_results_first(&mut m.content);
            }
            merged.push(m);
            assert(wire_view(merged@) =~= mv.push(
                SpecWireMessage { role: orig[k].role, content: ordered_content(orig[k].role, orig[k].content) },
            ));
        }
    }
    assert(orig.take(n as int) =~= orig);
    merged
}

/// The ids of the `tool_use` blocks of `bs`, in order.
pub open spec fn tool_use_ids(bs: Seq<SpecJson>) -> Seq<Seq<char>>
    decreases bs.len(),
{
    if bs.len() == 0 {
        seq![]
    } else if bs.last().str_at("type"@) == Some("tool_use"@) && bs.last().str_at("id"@) is Some {
        tool_use_ids(bs.drop_last()).push(bs.last().str_at("id"@)->0)
    } else {
        tool_use_ids(bs.drop_last())
    }
}

/// The ids of the `tool_result` blocks that open user content from `i` on, or
/// the violation a malformed block raises.
pub open spec fn leading_tool_result_ids(bs: Seq<SpecJson>, i: int) -> Result<Seq<Seq<char>>, EncodeError>
    decreases bs.len() - i,
{
    if i < 0 || i >= bs.len() {
        Ok(seq![])
    } else if !bs[i].is_object() {
        Err(violation("anthropic user content block must be object"@))
    } else {
        match bs[i].str_at("type"@) {
            None => Err(violation("anthropic user content block missing type"@)),
            Some(t) => if t != "tool_result"@ {
                Ok(seq![])
            } else {
                match bs[i].str_at("tool_use_id"@) {
                    None => Err(violation("tool_result block missing tool_use_id"@)),
                    Some(id) => match leading_tool_result_ids(bs, i + 1) {
                        Err(e) => Err(e),
                        Ok(rest) => Ok(seq![id] + rest),
                    },
                }
            },
        }
    }
}

/// The first pending id, from `j` on, that `answered` lacks.
pub open spec fn first_unanswered(pending: Seq<Seq<char>>, answered: Seq<Seq<char>>, j: int) -> Option<Seq<char>>
    decreases pending.len() - j,
{
    if j < 0 || j >= pending.len() {
        None
    } else if !answered.contains(pending[j]) {
        Some(pending[j])
    } else {
        first_unanswered(pending, answered, j + 1)
    }
}

/// Whether the tool uses of message `i` are answered at the start of the next user message.
pub open spec fn spec_check_tool_answers(ms: Seq<SpecWireMessage>, i: int) -> Result<(), EncodeError> {
    if ms[i].role != WireRole::Assistant || tool_use_ids(ms[i].content).len() == 0 {
        Ok(())
    } else if i + 1 >= ms.len() {
        Err(violation("assistant tool_use requires a following user tool_result message"@))
    } else if ms[i + 1].role != WireRole::User {
        Err(violation("assistant tool_use must be followed by a user message containing tool_result blocks"@))
    } else {
        match leading_tool_result_ids(ms[i + 1].content, 0) {
            Err(e) => Err(e),
            Ok(answered) => if answered.len() == 0 {
                Err(violation("assistant tool_use requires tool_result blocks at the start of the next user message"@))
            } else {
                match first_unanswered(tool_use_ids(ms[i].content), answered, 0) {
                    Some(id) => Err(
                        violation(
                            "missing tool_result for assistant tool_use id '"@ + id
                                + "' in following user message"@,
                        ),
                    ),
                    None => Ok(()),
                }
            },
        }
    }
}

/// Every assistant tool use, from message `i` on, is answered in order; the first failure wins.
pub open spec fn spec_validate_tool_ordering(ms: Seq<SpecWireMessage>, i: int) -> Result<(), EncodeError>
    decreases ms.len() - i,
{
    if i < 0 || i >= ms.len() {
        Ok(())
    } else {
        match spec_check_tool_answers(ms, i) {
            Err(e) => Err(e),
            Ok(_) => spec_validate_tool_ordering(ms, i + 1),
        }
    }
}

/// The ids of the `tool_use` blocks of a content list.
fn collect_tool_use_ids(content: &Vec<JsonValue>) -> (r: Vec<String>)
    ensures
        ids_view(r@) == tool_use_ids(content@.map_values(|x: JsonValue| x@)),
{
    let ghost cv = content@.map_values(|x: JsonValue| x@);
    let mut out: Vec<String> = Vec::new();
    let mut i: usize = 0;
    assert(cv.take(0) =~= Seq::<SpecJson>::empty());
    assert(ids_view(out@) =~= Seq::<Seq<char>>::empty());
    while i < content.len()
        invariant
            i <= content.len(),
            cv == content@.map_values(|x: JsonValue| x@),
            ids_view(out@) == tool_use_ids(cv.take(i as int)),
        decreases content.len() - i,
    {
        assert(cv.take(i + 1).drop_last() =~= cv.take(i as int));
        assert(cv.take(i + 1).last() == content@[i as int]@);
        let b = &content[i];
        let is_use = match crate::json::json_str(b, "type") {
            Some(t) => str_equal(t, "tool_use"),
            None => false,
        };
        if is_use {
            match crate::json::json_str(b, "id") {
                Some(id) => {
                    let ghost before = ids_view(out@);
                    out.push(owned(id));
                    assert(ids_view(out@) =~= before.push(id@));
                },
                None => {},
            }
        }
        i = i + 1;
    }
    assert(cv.take(content.len() as int) =~= cv);
    out
}

/// The ids of the `tool_result` blocks that open a user content list.
fn collect_leading_tool_result_ids(content: &Vec<JsonValue>) -> (r: Result<Vec<String>, AnthropicFamilyError>)
    ensures
        match leading_tool_result_ids(content@.map_values(|x: JsonValue| x@), 0) {
            Ok(ids) => r matches Ok(v) && ids_view(v@) == ids,
            Err(k) => r matches Err(e) && error_is(e, k),
        },
{
    let ghost cv = content@.map_values(|x: JsonValue| x@);
    let mut out: Vec<String> = Vec::new();
    let mut i: usize = 0;
    assert(ids_view(out@) =~= Seq::<Seq<char>>::empty());
    while i < content.len()
        invariant_except_break
            i <= content.len(),
            cv == content@.map_values(|x: JsonValue| x@),
            match leading_tool_result_ids(cv, i as int) {
                Ok(rest) => leading_tool_result_ids(cv, 0) == Ok::<Seq<Seq<char>>, EncodeError>(ids_view(out@) + rest),
                Err(e) => leading_tool_result_ids(cv, 0) == Err::<Seq<Seq<char>>, EncodeError>(e),
            },
        ensures
            leading_tool_result_ids(cv, 0) == Ok::<Seq<Seq<char>>, EncodeError>(ids_view(out@)),
        decreases content.len() - i,
    {
        let b = &content[i];
        assert(cv[i as int] == b@);
        if !b.is_object() {
            return Err(AnthropicFamilyError::protocol_violation("anthropic user content block must be object"));
        }
        let t = match crate::json::json_str(b, "type") {
            Some(t) => t,
            None => {
                return Err(AnthropicFamilyError::protocol_violation("anthropic user content block missing type"));
            },
        };
        if !str_equal(t, "tool_result") {
            assert(ids_view(out@) + Seq::<Seq<char>>::empty() =~= ids_view(out@));
            break;
        }
        let id = match crate::json::json_str(b, "tool_use_id") {
            Some(id) => id,
            None => {
                return Err(AnthropicFamilyError::protocol_violation("tool_result block missing tool_use_id"));
            },
        };
        let ghost before = ids_view(out@);
        out.push(owned(id));
        assert(ids_view(out@) =~= before.push(id@));
        proof {
            match leading_tool_result_ids(cv, i + 1) {
                Ok(rest) => {
                    assert(before + (seq![id@] + rest) =~= ids_view(out@) + rest);
                },
                Err(e) => {},
            }
        }
        i = i + 1;
    }
    if i == content.len() {
        assert(ids_view(out@) + Seq::<Seq<char>>::empty() =~= ids_view(out@));
    }
    Ok(out)
}

/// The first pending id that is not answered.
fn find_unanswered(pending: &Vec<String>, answered: &Vec<String>) -> (r: Option<String>)
    ensures
        match first_unanswered(ids_view(pending@), ids_view(answered@), 0) {
            Some(id) => r matches Some(x) && x@ == id,
            None => r is None,
        },
{
    let ghost pv = ids_view(pending@);
    let mut j: usize = 0;
    while j < pending.len()
        invariant
            j <= pending.len(),
            pv == ids_view(pending@),
            first_unanswered(pv, ids_view(answered@), j as int) == first_unanswered(pv, ids_view(answered@), 0),
        decreases pending.len() - j,
    {
        assert(pv[j as int] == pending@[j as int]@);
        if !ids_contain(answered, pending[j].as_str()) {
            return Some(pending[j].clone());
        }
        j = j + 1;
    }
    None
}

/// Checks the tool uses of message `i`.
#[verifier::loop_isolation(false)]
fn check_tool_answers(messages: &Vec<WireMessage>, i: usize) -> (r: Result<(), AnthropicFamilyError>)
    requires
        i < messages.len(),
    ensures
        unit_outcome(r, spec_check_tool_answers(wire_view(messages@), i as int)),
{
    let ghost ms = wire_view(messages@);
    let message = &messages[i];
    assert(ms[i as int] == message@);
    if message.role != WireRole::Assistant {
        return Ok(());
    }
    let pending = collect_tool_use_ids(&message.content);
    if pending.len() == 0 {
        return Ok(());
    }
    if i + 1 >= messages.len() {
        return Err(
            AnthropicFamilyError::protocol_violation("assistant tool_use requires a following user tool_result message"),
        );
    }
    let next = &messages[i + 1];
    assert(ms[i + 1] == next@);
    if next.role != WireRole::User {
        return Err(
            AnthropicFamilyError::protocol_violation(
                "assistant tool_use must be followed by a user message containing tool_result blocks",
            ),
        );
    }
    let answered = match collect_leading_tool_result_ids(&next.content) {
        Ok(a) => a,
        Err(e) => {
            return Err(e);
        },
    };
    if answered.len() == 0 {
        return Err(
            AnthropicFamilyError::protocol_violation(
                "assistant tool_use requires tool_result blocks at the start of the next user message",
            ),
        );
    }
    match find_unanswered(&pending, &answered) {
        Some(id) => {
            let m = concat3(
                "missing tool_result for assistant tool_use id '",
                id.as_str(),
                "' in following user message",
            );
            Err(AnthropicFamilyError::protocol_violation(m.as_str()))
        },
        None => Ok(()),
    }
}

/// Checks that every assistant tool use is answered by tool results at the
/// start of the next user message.
pub fn validate_tool_ordering(messages: &Vec<WireMessage>) -> (r: Result<(), AnthropicFamilyError>)
    ensures
        unit_outcome(r, spec_validate_tool_ordering(wire_view(messages@), 0)),
{
    let ghost ms = wire_view(messages@);
    let mut i: usize = 0;
    while i < messages.len()
        invariant
            i <= messages.len(),
            ms == wire_view(messages@),
            spec_validate_tool_ordering(ms, i as int) == spec_validate_tool_ordering(ms, 0),
        decreases messages.len() - i,
    {
        match check_tool_answers(messages, i) {
            Ok(()) => {},
            Err(e) => {
                return Err(e);
            },
        }
        i = i + 1;
    }
    Ok(())
}

/// A JSON response format cannot follow an assistant message (prefill).
pub open spec fn spec_validate_no_assistant_prefill(ms: Seq<SpecWireMessage>) -> Result<(), EncodeError> {
    if ms.len() > 0 && ms.last().role == WireRole::Assistant {
        Err(invalid("json response formats are incompatible with assistant-prefill final messages"@))
    } else {
        Ok(())
    }
}

/// Rejects a final assistant message when a JSON response format is requested.
pub fn validate_no_assistant_prefill(messages: &Vec<WireMessage>) -> (r: Result<(), AnthropicFamilyError>)
    ensures
        unit_outcome(r, spec_validate_no_assistant_prefill(wire_view(messages@))),
{
    if messages.len() > 0 && messages[messages.len() - 1].role == WireRole::Assistant {
        return Err(
            AnthropicFamilyError::validation("json response formats are incompatible with assistant-prefill final messages"),
        );
    }
    Ok(())
}

/// `{"format": {"schema": schema, "type": "json_schema"}}`.
pub open spec fn spec_output_config(schema: SpecJson) -> SpecJson {
    SpecJson::Object(
        seq![
            (
                "format"@,
                SpecJson::Object(
                    seq![("schema"@, schema), ("type"@, SpecJson::Str("json_schema"@))],
                ),
            ),
        ],
    )
}

/// An output configuration asking for JSON that matches `schema`.
fn output_config(schema: JsonValue) -> (r: JsonValue)
    ensures
        r@ == spec_output_config(schema@),
{
    let ghost sv = schema@;
    let mut inner: Vec<(String, JsonValue)> = Vec::new();
    inner.push((owned("schema"), schema));
    inner.push((owned("type"), string_of("json_schema")));
    let format = object_of(inner);
    assert(format@->Object_0 =~= seq![("schema"@, sv), ("type"@, SpecJson::Str("json_schema"@))]);
    let mut outer: Vec<(String, JsonValue)> = Vec::new();
    outer.push((owned("format"), format));
    let r = object_of(outer);
    assert(r@->Object_0 =~= spec_output_config(sv)->Object_0);
    r
}

/// The output configuration of the requested response format.
pub open spec fn spec_map_response_format(format: SpecResponseFormat, ms: Seq<SpecWireMessage>) -> Result<
    Option<SpecJson>,
    EncodeError,
> {
    match format {
        SpecResponseFormat::Text => Ok(None),
        SpecResponseFormat::JsonObject => match spec_validate_no_assistant_prefill(ms) {
            Err(e) => Err(e),
            Ok(_) => Ok(Some(spec_output_config(spec_permissive_json_object_schema()))),
        },
        SpecResponseFormat::JsonSchema { schema, .. } => match spec_validate_no_assistant_prefill(ms) {
            Err(e) => Err(e),
            Ok(_) => Ok(Some(spec_output_config(schema))),
        },
    }
}

/// Maps the requested response format to an Anthropic output configuration.
pub fn map_response_format(req: &Request, messages: &Vec<WireMessage>) -> (r: Result<
    Option<JsonValue>,
    AnthropicFamilyError,
>)
    ensures
        match spec_map_response_format(req@.response_format, wire_view(messages@)) {
            Ok(o) => r matches Ok(v) && match v {
                Some(x) => o == Some(x@),
                None => o is None,
            },
            Err(k) => r matches Err(e) && error_is(e, k),
        },
{
    match &req.response_format {
        ResponseFormat::Text => Ok(None),
        ResponseFormat::JsonObject => {
            match validate_no_assistant_prefill(messages) {
                Err(e) => {
                    return Err(e);
                },
                Ok(()) => {},
            }
            Ok(Some(output_config(permissive_json_object_schema())))
        },
        ResponseFormat::JsonSchema { schema, .. } => {
            match validate_no_assistant_prefill(messages) {
                Err(e) => {
                    return Err(e);
                },
                Ok(()) => {},
            }
            Ok(Some(output_config(schema.copy())))
        },
    }
}

/// Model of optional blocks.
pub open spec fn opt_blocks_view(o: Option<Vec<JsonValue>>) -> Option<Seq<SpecJson>> {
    match o {
        Some(bs) => Some(bs@.map_values(|x: JsonValue| x@)),
        None => None,
    }
}

/// A member that is present only when the value is.
pub open spec fn opt_entry(key: Seq<char>, value: Option<SpecJson>) -> Seq<(Seq<char>, SpecJson)> {
    match value {
        Some(v) => seq![(key, v)],
        None => seq![],
    }
}

/// The messages as JSON objects.
pub open spec fn spec_messages_json(ms: Seq<SpecWireMessage>) -> Seq<SpecJson> {
    ms.map_values(|m: SpecWireMessage| spec_wire_message_json(m))
}

/// The request body: members in key order, optional ones only when present.
pub open spec fn spec_request_body(
    max_tokens: u32,
    messages: Seq<SpecWireMessage>,
    metadata: Option<SpecJson>,
    model: Seq<char>,
    output_config: Option<SpecJson>,
    stop: Seq<Seq<char>>,
    system: Option<Seq<SpecJson>>,
    temperature: Option<SpecJsonNumber>,
    tool_choice: SpecJson,
    tools: Seq<SpecJson>,
    top_p: Option<SpecJsonNumber>,
) -> SpecJson {
    SpecJson::Object(
        seq![("max_tokens"@, SpecJson::Number(SpecJsonNumber::PosInt(max_tokens as u64)))]
            + seq![("messages"@, SpecJson::Array(spec_messages_json(messages)))]
            + opt_entry("metadata"@, metadata)
            + seq![("model"@, SpecJson::Str(model))]
            + opt_entry("output_config"@, output_config)
            + opt_entry(
                "stop_sequences"@,
                if stop.len() == 0 {
                    None
                } else {
                    Some(SpecJson::Array(stop.map_values(|t: Seq<char>| SpecJson::Str(t))))
                },
            )
            + opt_entry(
                "system"@,
                match system {
                    Some(bs) => Some(SpecJson::Array(bs)),
                    None => None,
                },
            )
            + opt_entry(
                "temperature"@,
                match temperature {
                    Some(n) => Some(SpecJson::Number(n)),
                    None => None,
                },
            )
            + seq![("tool_choice"@, tool_choice)]
            + opt_entry(
                "tools"@,
                if tools.len() == 0 {
                    None
                } else {
                    Some(SpecJson::Array(tools))
                },
            )
            + opt_entry(
                "top_p"@,
                match top_p {
                    Some(n) => Some(SpecJson::Number(n)),
                    None => None,
                },
            ),
    )
}

/// An optional member is found under its own key only, and only when present.
proof fn lemma_obj_lookup_opt_entry(k: Seq<char>, o: Option<SpecJson>)
    ensures
        forall|key: Seq<char>|
            #[trigger] obj_lookup(opt_entry(k, o), key, 0) == if k == key {
                o
            } else {
                None
            },
{
    match o {
        Some(v) => lemma_obj_lookup_single(k, v),
        None => {},
    }
}

/// The members of a request body under the keys `max_tokens`, `model`,
/// `stop_sequences`, `temperature` and `top_p`.
proof fn lemma_request_body_members(
    max_tokens: u32,
    messages: Seq<SpecWireMessage>,
    metadata: Option<SpecJson>,
    model: Seq<char>,
    output_config: Option<SpecJson>,
    stop: Seq<Seq<char>>,
    system: Option<Seq<SpecJson>>,
    temperature: Option<SpecJsonNumber>,
    tool_choice: SpecJson,
    tools: Seq<SpecJson>,
    top_p: Option<SpecJsonNumber>,
)
    ensures
        ({
            let body = spec_request_body(
                max_tokens,
                messages,
                metadata,
                model,
                output_config,
                stop,
                system,
                temperature,
                tool_choice,
                tools,
                top_p,
            );
            &&& body.get("max_tokens"@) == Some(SpecJson::Number(SpecJsonNumber::PosInt(max_tokens as u64)))
            &&& body.get("model"@) == Some(SpecJson::Str(model))
            &&& body.get("metadata"@) == metadata
            &&& body.get("tools"@) == if tools.len() == 0 {
                None
            } else {
                Some(SpecJson::Array(tools))
            }
            &&& body.get("stop_sequences"@) == if stop.len() == 0 {
                None
            } else {
                Some(SpecJson::Array(stop.map_values(|t: Seq<char>| SpecJson::Str(t))))
            }
            &&& body.get("temperature"@) == match temperature {
                Some(n) => Some(SpecJson::Number(n)),
                None => None,
            }
            &&& body.get("top_p"@) == match top_p {
                Some(n) => Some(SpecJson::Number(n)),
                None => None,
            }
        }),
{
    reveal_strlit("max_tokens");
    reveal_strlit("messages");
    reveal_strlit("metadata");
    reveal_strlit("model");
    reveal_strlit("output_config");
    reveal_strlit("stop_sequences");
    reveal_strlit("system");
    reveal_strlit("temperature");
    reveal_strlit("tool_choice");
    reveal_strlit("tools");
    reveal_strlit("top_p");
    assert("max_tokens"@[1] != "messages"@[1]);
    assert("max_tokens"@[1] != "metadata"@[1]);
    assert("max_tokens"@[1] != "model"@[1]);
    assert("max_tokens"@[0] != "output_config"@[0]);
    assert("max_tokens"@[0] != "stop_sequences"@[0]);
    assert("max_tokens"@[0] != "system"@[0]);
    assert("max_tokens"@[0] != "temperature"@[0]);
    assert("max_tokens"@[0] != "tool_choice"@[0]);
    assert("max_tokens"@[0] != "tools"@[0]);
    assert("max_tokens"@[0] != "top_p"@[0]);
    assert("model"@[1] != "max_tokens"@[1]);
    assert("model"@[1] != "messages"@[1]);
    assert("model"@[1] != "metadata"@[1]);
    assert("model"@[0] != "output_config"@[0]);
    assert("model"@[0] != "stop_sequences"@[0]);
    assert("model"@[0] != "system"@[0]);
    assert("model"@[0] != "temperature"@[0]);
    assert("model"@[0] != "tool_choice"@[0]);
    assert("model"@[0] != "tools"@[0]);
    assert("model"@[0] != "top_p"@[0]);
    assert("temperature"@[0] != "max_tokens"@[0]);
    assert("temperature"@[0] != "messages"@[0]);
    assert("temperature"@[0] != "metadata"@[0]);
    assert("temperature"@[0] != "model"@[0]);
    assert("temperature"@[0] != "output_config"@[0]);
    assert("temperature"@[0] != "stop_sequences"@[0]);
    assert("temperature"@[0] != "system"@[0]);
    assert("temperature"@[1] != "tool_choice"@[1]);
    assert("temperature"@[1] != "tools"@[1]);
    assert("temperature"@[1] != "top_p"@[1]);
    assert("top_p"@[0] != "max_tokens"@[0]);
    assert("top_p"@[0] != "messages"@[0]);
    assert("top_p"@[0] != "metadata"@[0]);
    assert("top_p"@[0] != "model"@[0]);
    assert("top_p"@[0] != "output_config"@[0]);
    assert("top_p"@[0] != "stop_sequences"@[0]);
    assert("top_p"@[0] != "system"@[0]);
    assert("top_p"@[1] != "temperature"@[1]);
    assert("top_p"@[2] != "tool_choice"@[2]);
    assert("top_p"@[2] != "tools"@[2]);
    assert("stop_sequences"@[0] != "max_tokens"@[0]);
    assert("stop_sequences"@[0] != "messages"@[0]);
    assert("stop_sequences"@[0] != "metadata"@[0]);
    assert("stop_sequences"@[0] != "model"@[0]);
    assert("stop_sequences"@[0] != "output_config"@[0]);
    assert("stop_sequences"@[1] != "system"@[1]);
    assert("stop_sequences"@[0] != "temperature"@[0]);
    assert("stop_sequences"@[0] != "tool_choice"@[0]);
    assert("stop_sequences"@[0] != "tools"@[0]);
    assert("stop_sequences"@[0] != "top_p"@[0]);
    assert("metadata"@[1] != "max_tokens"@[1]);
    assert("metadata"@[2] != "messages"@[2]);
    assert("metadata"@[1] != "model"@[1]);
    assert("metadata"@[0] != "output_config"@[0]);
    assert("metadata"@[0] != "stop_sequences"@[0]);
    assert("metadata"@[0] != "system"@[0]);
    assert("metadata"@[0] != "temperature"@[0]);
    assert("metadata"@[0] != "tool_choice"@[0]);
    assert("metadata"@[0] != "tools"@[0]);
    assert("metadata"@[0] != "top_p"@[0]);
    assert("tools"@[0] != "max_tokens"@[0]);
    assert("tools"@[0] != "messages"@[0]);
    assert("tools"@[0] != "metadata"@[0]);
    assert("tools"@[0] != "model"@[0]);
    assert("tools"@[0] != "output_config"@[0]);
    assert("tools"@[0] != "stop_sequences"@[0]);
    assert("tools"@[0] != "system"@[0]);
    assert("tools"@[1] != "temperature"@[1]);
    assert("tools"@[4] != "tool_choice"@[4]);
    assert("tools"@[2] != "top_p"@[2]);
    let e1 = seq![("max_tokens"@, SpecJson::Number(SpecJsonNumber::PosInt(max_tokens as u64)))];
    let e2 = seq![("messages"@, SpecJson::Array(spec_messages_json(messages)))];
    let e3 = opt_entry("metadata"@, metadata);
    let e4 = seq![("model"@, SpecJson::Str(model))];
    let e5 = opt_entry("output_config"@, output_config);
    let e6 = opt_entry(
        "stop_sequences"@,
        if stop.len() == 0 {
            None
        } else {
            Some(SpecJson::Array(stop.map_values(|t: Seq<char>| SpecJson::Str(t))))
        },
    );
    let e7 = opt_entry(
        "system"@,
        match system {
            Some(bs) => Some(SpecJson::Array(bs)),
            None => None,
        },
    );
    let e8 = opt_entry(
        "temperature"@,
        match temperature {
            Some(n) => Some(SpecJson::Number(n)),
            None => None,
        },
    );
    let e9 = seq![("tool_choice"@, tool_choice)];
    let e10 = opt_entry(
        "tools"@,
        if tools.len() == 0 {
            None
        } else {
            Some(SpecJson::Array(tools))
        },
    );
    let e11 = opt_entry(
        "top_p"@,
        match top_p {
            Some(n) => Some(SpecJson::Number(n)),
            None => None,
        },
    );
    lemma_obj_lookup_single("max_tokens"@, SpecJson::Number(SpecJsonNumber::PosInt(max_tokens as u64)));
    lemma_obj_lookup_single("messages"@, SpecJson::Array(spec_messages_json(messages)));
    lemma_obj_lookup_single("model"@, SpecJson::Str(model));
    lemma_obj_lookup_single("tool_choice"@, tool_choice);
    lemma_obj_lookup_opt_entry("metadata"@, metadata);
    lemma_obj_lookup_opt_entry("output_config"@, output_config);
    lemma_obj_lookup_opt_entry(
        "stop_sequences"@,
        if stop.len() == 0 {
            None
        } else {
            Some(SpecJson::Array(stop.map_values(|t: Seq<char>| SpecJson::Str(t))))
        },
    );
    lemma_obj_lookup_opt_entry(
        "system"@,
        match system {
            Some(bs) => Some(SpecJson::Array(bs)),
            None => None,
        },
    );
    lemma_obj_lookup_opt_entry(
        "temperature"@,
        match temperature {
            Some(n) => Some(SpecJson::Number(n)),
            None => None,
        },
    );
    lemma_obj_lookup_opt_entry(
        "tools"@,
        if tools.len() == 0 {
            None
        } else {
            Some(SpecJson::Array(tools))
        },
    );
    lemma_obj_lookup_opt_entry(
        "top_p"@,
        match top_p {
            Some(n) => Some(SpecJson::Number(n)),
            None => None,
        },
    );
    lemma_obj_lookup_concat(e1, e2);
    lemma_obj_lookup_concat(e1 + e2, e3);
    lemma_obj_lookup_concat(e1 + e2 + e3, e4);
    lemma_obj_lookup_concat(e1 + e2 + e3 + e4, e5);
    lemma_obj_lookup_concat(e1 + e2 + e3 + e4 + e5, e6);
    lemma_obj_lookup_concat(e1 + e2 + e3 + e4 + e5 + e6, e7);
    lemma_obj_lookup_concat(e1 + e2 + e3 + e4 + e5 + e6 + e7, e8);
    lemma_obj_lookup_concat(e1 + e2 + e3 + e4 + e5 + e6 + e7 + e8, e9);
    lemma_obj_lookup_concat(e1 + e2 + e3 + e4 + e5 + e6 + e7 + e8 + e9, e10);
    lemma_obj_lookup_concat(e1 + e2 + e3 + e4 + e5 + e6 + e7 + e8 + e9 + e10, e11);
}

/// Each tool definition maps, in order, to an object whose `name` is the
/// tool's name, whose `input_schema` is its parameter schema, and whose
/// `description` is present exactly when the tool has one.
pub proof fn law_mapped_tools_follow_definitions(tools: Seq<SpecToolDefinition>)
    ensures
        spec_map_tools(tools) matches Ok(ts) ==> ts.len() == tools.len() && forall|j: int|
            0 <= j < ts.len() ==> {
                &&& (#[trigger] ts[j]).get("name"@) == Some(SpecJson::Str(tools[j].name))
                &&& ts[j].get("input_schema"@) == Some(tools[j].parameters_schema)
                &&& ts[j].get("description"@) == match tools[j].description {
                    Some(d) => Some(SpecJson::Str(d)),
                    None => None,
                }
            },
    decreases tools.len(),
{
    if tools.len() > 0 {
        let init = tools.drop_last();
        law_mapped_tools_follow_definitions(init);
        match spec_map_tools(tools) {
            Ok(ts) => {
                let done = spec_map_tools(init)->Ok_0;
                let tool = tools.last();
                reveal_strlit("description");
                reveal_strlit("input_schema");
                reveal_strlit("name");
                assert("description"@[0] != "input_schema"@[0]);
                assert("description"@[0] != "name"@[0]);
                assert("input_schema"@[0] != "name"@[0]);
                let d = ("description"@, SpecJson::Str(tool.description->0));
                let i = ("input_schema"@, tool.parameters_schema);
                let n = ("name"@, SpecJson::Str(tool.name));
                lemma_obj_lookup_single(n.0, n.1);
                lemma_obj_lookup_single(i.0, i.1);
                lemma_obj_lookup_single(d.0, d.1);
                lemma_obj_lookup_concat(seq![i], seq![n]);
                lemma_obj_lookup_concat(seq![d], seq![i] + seq![n]);
                assert(seq![i, n] =~= seq![i] + seq![n]);
                assert(seq![d, i, n] =~= seq![d] + (seq![i] + seq![n]));
                assert forall|j: int| 0 <= j < ts.len() implies {
                    &&& (#[trigger] ts[j]).get("name"@) == Some(SpecJson::Str(tools[j].name))
                    &&& ts[j].get("input_schema"@) == Some(tools[j].parameters_schema)
                    &&& ts[j].get("description"@) == match tools[j].description {
                        Some(d) => Some(SpecJson::Str(d)),
                        None => None,
                    }
                } by {
                    if j < init.len() {
                        assert(ts[j] == done[j]);
                        assert(init[j] == tools[j]);
                    }
                }
            },
            Err(_) => {},
        }
    }
}

/// What an encoded request asks of sampling and length is what the request
/// asks: the body's `temperature` and `top_p` are present exactly when the
/// request sets them, as the request's wire numbers; its `max_tokens` is the
/// request's output limit, 1024 when none is set; its `model` is the
/// request's model; its `stop_sequences` are the request's stop strings, in
/// order, present only when there are any; its `metadata` holds the request's
/// first `user_id` and nothing else, present only when there is one; its
/// `tools` are the request's tools, one per definition, in order, under their
/// names and schemas, present only when there are any.
pub proof fn law_encoded_body_keeps_sampling(req: SpecRequest)
    ensures
        spec_encode_anthropic_request(req) matches Ok(enc) ==> {
            &&& enc.body.get("top_p"@) == match req.top_p {
                Some(t) => Some(SpecJson::Number(t.wire)),
                None => None,
            }
            &&& enc.body.get("temperature"@) == match req.temperature {
                Some(t) => Some(SpecJson::Number(t.wire)),
                None => None,
            }
            &&& enc.body.get("max_tokens"@) == Some(
                SpecJson::Number(
                    SpecJsonNumber::PosInt(
                        match req.max_output_tokens {
                            Some(n) => n as u64,
                            None => 1024u64,
                        },
                    ),
                ),
            )
            &&& enc.body.get("model"@) == Some(SpecJson::Str(req.model_id))
            &&& enc.body.get("stop_sequences"@) == if req.stop.len() == 0 {
                None
            } else {
                Some(SpecJson::Array(req.stop.map_values(|t: Seq<char>| SpecJson::Str(t))))
            }
            &&& enc.body.get("metadata"@) == match pair_lookup(req.metadata, "user_id"@, 0) {
                Some(u) => Some(SpecJson::Object(seq![("user_id"@, SpecJson::Str(u))])),
                None => None,
            }
            &&& (enc.body.get("tools"@) is None <==> req.tools.len() == 0)
            &&& (enc.body.get("tools"@) matches Some(SpecJson::Array(ts)) ==> ts.len() == req.tools.len()
                && forall|j: int|
                0 <= j < ts.len() ==> (#[trigger] ts[j]).get("name"@) == Some(SpecJson::Str(req.tools[j].name))
                    && ts[j].get("input_schema"@) == Some(req.tools[j].parameters_schema))
        },
{
    law_mapped_tools_follow_definitions(req.tools);
    match spec_encode_anthropic_request(req) {
        Ok(enc) => {
            assert forall|max_tokens: u32,
                messages: Seq<SpecWireMessage>,
                metadata: Option<SpecJson>,
                model: Seq<char>,
                output_config: Option<SpecJson>,
                stop: Seq<Seq<char>>,
                system: Option<Seq<SpecJson>>,
                temperature: Option<SpecJsonNumber>,
                tool_choice: SpecJson,
                tools: Seq<SpecJson>,
                top_p: Option<SpecJsonNumber>|
                {
                    let body = #[trigger] spec_request_body(
                        max_tokens,
                        messages,
                        metadata,
                        model,
                        output_config,
                        stop,
                        system,
                        temperature,
                        tool_choice,
                        tools,
                        top_p,
                    );
                    &&& body.get("max_tokens"@) == Some(SpecJson::Number(SpecJsonNumber::PosInt(max_tokens as u64)))
                    &&& body.get("model"@) == Some(SpecJson::Str(model))
                    &&& body.get("metadata"@) == metadata
                    &&& body.get("tools"@) == if tools.len() == 0 {
                        None
                    } else {
                        Some(SpecJson::Array(tools))
                    }
                    &&& body.get("stop_sequences"@) == if stop.len() == 0 {
                        None
                    } else {
                        Some(SpecJson::Array(stop.map_values(|t: Seq<char>| SpecJson::Str(t))))
                    }
                    &&& body.get("temperature"@) == match temperature {
                        Some(n) => Some(SpecJson::Number(n)),
                        None => None,
                    }
                    &&& body.get("top_p"@) == match top_p {
                        Some(n) => Some(SpecJson::Number(n)),
                        None => None,
                    }
                } by {
                lemma_request_body_members(
                    max_tokens,
                    messages,
                    metadata,
                    model,
                    output_config,
                    stop,
                    system,
                    temperature,
                    tool_choice,
                    tools,
                    top_p,
                );
            }
        },
        Err(_) => {},
    }
}

/// The Anthropic request a provider-agnostic request encodes to, or the error
/// that stops it. Steps run in this order, the first error winning: request
/// validation, the system prefix, message mapping, merging of consecutive
/// roles, tool-use ordering, a non-empty conversation, tools, tool choice,
/// response format; metadata and the token limit then only add warnings.
pub open spec fn spec_encode_anthropic_request(req: SpecRequest) -> Result<SpecEncodedRequest, EncodeError> {
    match spec_validate_request(req) {
        Err(e) => Err(e),
        Ok(_) => {
            let ws0 = if req.temperature is Some && req.top_p is Some {
                seq![
                    warning(
                        "anthropic.encode.both_temperature_and_top_p_set"@,
                        "Anthropic recommends setting temperature or top_p, but not both"@,
                    ),
                ]
            } else {
                seq![]
            };
            match spec_map_system_prefix(req.messages) {
                Err(e) => Err(e),
                Ok((system, idx)) => match spec_map_messages(req.messages.skip(idx), seq![]) {
                    Err(e) => Err(e),
                    Ok((mapped, _)) => {
                        let merged = spec_merge_consecutive_messages(mapped);
                        match spec_validate_tool_ordering(merged, 0) {
                            Err(e) => Err(e),
                            Ok(_) => if merged.len() == 0 {
                                Err(invalid("empty messages"@))
                            } else {
                                match spec_map_tools(req.tools) {
                                    Err(e) => Err(e),
                                    Ok(tools) => match spec_map_tool_choice(req) {
                                        Err(e) => Err(e),
                                        Ok(tool_choice) => match spec_map_response_format(
                                            req.response_format,
                                            merged,
                                        ) {
                                            Err(e) => Err(e),
                                            Ok(output_config) => {
                                                let (metadata, ws1) = spec_map_metadata(req, ws0);
                                                let (max_tokens, ws2) = match req.max_output_tokens {
                                                    Some(n) => (n, ws1),
                                                    None => (
                                                        1024u32,
                                                        ws1.push(
                                                            warning(
                                                                "anthropic.encode.default_max_tokens_applied"@,
                                                                "max_output_tokens not set; defaulting to 1024 for Anthropic"@,
                                                            ),
                                                        ),
                                                    ),
                                                };
                                                Ok(
                                                    SpecEncodedRequest {
                                                        body: spec_request_body(
                                                            max_tokens,
                                                            merged,
                                                            metadata,
                                                            req.model_id,
                                                            output_config,
                                                            req.stop,
                                                            system,
                                                            match req.temperature {
                                                                Some(t) => Some(t.wire),
                                                                None => None,
                                                            },
                                                            tool_choice,
                                                            tools,
                                                            match req.top_p {
                                                                Some(t) => Some(t.wire),
                                                                None => None,
                                                            },
                                                        ),
                                                        warnings: ws2,
                                                    },
                                                )
                                            },
                                        },
                                    },
                                }
                            },
                        }
                    },
                },
            }
        },
    }
}

/// The messages as JSON objects, consuming them.
fn messages_json(messages: Vec<WireMessage>) -> (r: Vec<JsonValue>)
    ensures
        r@.map_values(|x: JsonValue| x@) == spec_messages_json(wire_view(messages@)),
{
    let ghost orig = wire_view(messages@);
    let ghost n = orig.len();
    let mut rest = messages;
    let mut out: Vec<JsonValue> = Vec::new();
    assert(wire_view(rest@) =~= orig.skip(0));
    assert(out@.map_values(|x: JsonValue| x@) =~= spec_messages_json(orig.take(0)));
    while rest.len() > 0
        invariant
            orig.len() == n,
            rest.len() <= n,
            wire_view(rest@) == orig.skip(n - rest.len()),
            out@.map_values(|x: JsonValue| x@) == spec_messages_json(orig.take(n - rest.len())),
        decreases rest.len(),
    {
        let ghost k = n - rest.len();
        let ghost rv = wire_view(rest@);
        assert(rv[0] == orig[k]);
        let m = rest.remove(0);
        assert(m@ == rv[0]);
        assert(wire_view(rest@) =~= rv.drop_first());
        assert(rv.drop_first() =~= orig.skip(k + 1));
        let ghost before = out@.map_values(|x: JsonValue| x@);
        out.push(m.into_json());
        assert(orig.take(k + 1) =~= orig.take(k).push(orig[k]));
        assert(spec_messages_json(orig.take(k + 1)) =~= before.push(spec_wire_message_json(orig[k])));
        assert(out@.map_values(|x: JsonValue| x@) =~= spec_messages_json(orig.take(k + 1)));
    }
    assert(orig.take(n as int) =~= orig);
    out
}

/// Encodes a provider-agnostic request as an Anthropic Messages request body.
pub fn encode_anthropic_request(req: Request) -> (r: Result<AnthropicEncodedRequest, AnthropicFamilyError>)
    ensures
        match spec_encode_anthropic_request(req@) {
            Ok(enc) => r matches Ok(x) && x@ == enc,
            Err(k) => r matches Err(e) && error_is(e, k),
        },
{
    let ghost rv = req@;
    match validate_request(&req) {
        Err(e) => {
            return Err(e);
        },
        Ok(()) => {},
    }
    let mut warnings: Vec<RuntimeWarning> = Vec::new();
    if req.temperature.is_some() && req.top_p.is_some() {
        push_warning(
            &mut warnings,
            "anthropic.encode.both_temperature_and_top_p_set",
            "Anthropic recommends setting temperature or top_p, but not both",
        );
    }
    let (system, idx) = match map_system_prefix(&req) {
        Err(e) => {
            return Err(e);
        },
        Ok(p) => p,
    };
    assert(messages_view(req.messages@) == rv.messages);
    proof {
        lemma_system_prefix_len_bounds(rv.messages, 0);
    }
    assert forall|j: int| idx <= j < req.messages.len() implies (#[trigger] req.messages@[j]).role
        != MessageRole::System by {
        assert(rv.messages[j] == req.messages@[j]@);
    }
    let mapped = match map_non_system_messages(&req.messages, idx) {
        Err(e) => {
            return Err(e);
        },
        Ok(m) => m,
    };
    let merged = merge_consecutive_messages(mapped);
    match validate_tool_ordering(&merged) {
        Err(e) => {
            return Err(e);
        },
        Ok(()) => {},
    }
    if merged.len() == 0 {
        return Err(AnthropicFamilyError::validation("empty messages"));
    }
    let tools = match map_tools(&req) {
        Err(e) => {
            return Err(e);
        },
        Ok(t) => t,
    };
    let tool_choice = match map_tool_choice(&req) {
        Err(e) => {
            return Err(e);
        },
        Ok(t) => t,
    };
    let output_config = match map_response_format(&req, &merged) {
        Err(e) => {
            return Err(e);
        },
        Ok(o) => o,
    };
    let metadata = map_metadata(&req, &mut warnings);
    let max_tokens: u32 = match req.max_output_tokens {
        Some(n) => n,
        None => {
            push_warning(
                &mut warnings,
                "anthropic.encode.default_max_tokens_applied",
                "max_output_tokens not set; defaulting to 1024 for Anthropic",
            );
            1024
        },
    };
    let ghost ws_final = warnings_view(warnings@);
    let ghost md_v = opt_json_view(metadata);
    proof {
        let ws0 = if rv.temperature is Some && rv.top_p is Some {
            seq![
                warning(
                    "anthropic.encode.both_temperature_and_top_p_set"@,
                    "Anthropic recommends setting temperature or top_p, but not both"@,
                ),
            ]
        } else {
            seq![]
        };
        let (m1, ws1) = spec_map_metadata(rv, ws0);
        assert(m1 == md_v);
        let enc = spec_encode_anthropic_request(rv);
        assert(enc is Ok);
        assert(enc->Ok_0.warnings == ws_final);
    }
    let Request { model_id, stop, temperature, top_p, .. } = req;
    assert(stop@.map_values(|t: String| t@) =~= rv.stop);
    let body = build_request_body(
        max_tokens,
        merged,
        metadata,
        model_id,
        output_config,
        stop,
        system,
        temperature,
        tool_choice,
        tools,
        top_p,
    );
    Ok(AnthropicEncodedRequest { body, warnings })
}



/// The request body from its encoded parts, members in key order.
#[verifier::rlimit(30)]
fn build_request_body(
    max_tokens: u32,
    merged: Vec<WireMessage>,
    metadata: Option<JsonValue>,
    model_id: String,
    output_config: Option<JsonValue>,
    stop: Vec<String>,
    system: Option<Vec<JsonValue>>,
    temperature: Option<SamplingValue>,
    tool_choice: JsonValue,
    tools: Vec<JsonValue>,
    top_p: Option<SamplingValue>,
) -> (r: JsonValue)
    ensures
        r@ == spec_request_body(
            max_tokens,
            wire_view(merged@),
            opt_json_view(metadata),
            model_id@,
            opt_json_view(output_config),
            stop@.map_values(|t: String| t@),
            opt_blocks_view(system),
            match opt_sampling_view(temperature) {
                Some(t) => Some(t.wire),
                None => None,
            },
            tool_choice@,
            tools@.map_values(|x: JsonValue| x@),
            match opt_sampling_view(top_p) {
                Some(t) => Some(t.wire),
                None => None,
            },
        ),
{
    let ghost merged_v = wire_view(merged@);
    let ghost tools_v = tools@.map_values(|x: JsonValue| x@);
    let ghost choice_v = tool_choice@;
    let ghost metadata_v = opt_json_view(metadata);
    let ghost output_v = opt_json_view(output_config);
    let ghost system_v = opt_blocks_view(system);
    let mut entries: Vec<(String, JsonValue)> = Vec::new();
    entries.push((owned("max_tokens"), JsonValue::Number(JsonNumber::PosInt(max_tokens as u64))));
    entries.push((owned("messages"), array_of(messages_json(merged))));
    let ghost e1 = seq![("max_tokens"@, SpecJson::Number(SpecJsonNumber::PosInt(max_tokens as u64)))]
        + seq![("messages"@, SpecJson::Array(spec_messages_json(merged_v)))];
    assert(entries@.map_values(|e: (String, JsonValue)| (e.0@, e.1@)) =~= e1);
    match metadata {
        Some(m) => {
            entries.push((owned("metadata"), m));
        },
        None => {},
    }
    let ghost e2 = e1 + opt_entry("metadata"@, metadata_v);
    assert(entries@.map_values(|e: (String, JsonValue)| (e.0@, e.1@)) =~= e2);
    entries.push((owned("model"), JsonValue::String(model_id)));
    let ghost e3 = e2 + seq![("model"@, SpecJson::Str(model_id@))];
    assert(entries@.map_values(|e: (String, JsonValue)| (e.0@, e.1@)) =~= e3);
    match output_config {
        Some(o) => {
            entries.push((owned("output_config"), o));
        },
        None => {},
    }
    let ghost e4 = e3 + opt_entry("output_config"@, output_v);
    assert(entries@.map_values(|e: (String, JsonValue)| (e.0@, e.1@)) =~= e4);
    if stop.len() > 0 {
        let mut items: Vec<JsonValue> = Vec::new();
        let mut i: usize = 0;
        while i < stop.len()
            invariant
                i <= stop.len(),
                items@.map_values(|x: JsonValue| x@) == stop@.take(i as int).map_values(
                    |t: String| SpecJson::Str(t@),
                ),
            decreases stop.len() - i,
        {
            let ghost before = items@.map_values(|x: JsonValue| x@);
            items.push(string_of(stop[i].as_str()));
            assert(stop@.take(i + 1).map_values(|t: String| SpecJson::Str(t@)) =~= before.push(
                SpecJson::Str(stop@[i as int]@),
            ));
            assert(items@.map_values(|x: JsonValue| x@) =~= before.push(SpecJson::Str(stop@[i as int]@)));
            i = i + 1;
        }
        assert(stop@.take(stop.len() as int) =~= stop@);
        assert(items@.map_values(|x: JsonValue| x@) =~= stop@.map_values(|t: String| t@).map_values(|t: Seq<char>| SpecJson::Str(t)));
        entries.push((owned("stop_sequences"), array_of(items)));
    }
    let ghost e5 = e4 + opt_entry(
        "stop_sequences"@,
        if stop@.map_values(|t: String| t@).len() == 0 {
            None
        } else {
            Some(SpecJson::Array(stop@.map_values(|t: String| t@).map_values(|t: Seq<char>| SpecJson::Str(t))))
        },
    );
    assert(entries@.map_values(|e: (String, JsonValue)| (e.0@, e.1@)) =~= e5);
    match system {
        Some(bs) => {
            entries.push((owned("system"), array_of(bs)));
        },
        None => {},
    }
    let ghost e6 = e5 + opt_entry(
        "system"@,
        match system_v {
            Some(bs) => Some(SpecJson::Array(bs)),
            None => None,
        },
    );
    assert(entries@.map_values(|e: (String, JsonValue)| (e.0@, e.1@)) =~= e6);
    match temperature {
        Some(t) => {
            entries.push((owned("temperature"), JsonValue::Number(t.wire)));
        },
        None => {},
    }
    let ghost e7 = e6 + opt_entry(
        "temperature"@,
        match opt_sampling_view(temperature) {
            Some(t) => Some(SpecJson::Number(t.wire)),
            None => None,
        },
    );
    assert(entries@.map_values(|e: (String, JsonValue)| (e.0@, e.1@)) =~= e7);
    entries.push((owned("tool_choice"), tool_choice));
    let ghost e8 = e7 + seq![("tool_choice"@, choice_v)];
    assert(entries@.map_values(|e: (String, JsonValue)| (e.0@, e.1@)) =~= e8);
    if tools.len() > 0 {
        entries.push((owned("tools"), array_of(tools)));
    }
    let ghost e9 = e8 + opt_entry(
        "tools"@,
        if tools_v.len() == 0 {
            None
        } else {
            Some(SpecJson::Array(tools_v))
        },
    );
    assert(entries@.map_values(|e: (String, JsonValue)| (e.0@, e.1@)) =~= e9);
    match top_p {
        Some(t) => {
            entries.push((owned("top_p"), JsonValue::Number(t.wire)));
        },
        None => {},
    }
    let ghost e10 = e9 + opt_entry(
        "top_p"@,
        match opt_sampling_view(top_p) {
            Some(t) => Some(SpecJson::Number(t.wire)),
            None => None,
        },
    );
    assert(entries@.map_values(|e: (String, JsonValue)| (e.0@, e.1@)) =~= e10);
    object_of(entries)
}

proof fn lemma_partition_parts(bs: Seq<SpecJson>)
    ensures
        tool_result_blocks(bs).len() + other_blocks(bs).len() == bs.len(),
        tool_result_blocks(bs).to_multiset().add(other_blocks(bs).to_multiset()) =~= bs.to_multiset(),
        forall|i: int| 0 <= i < tool_result_blocks(bs).len() ==> is_tool_result_block(#[trigger] tool_result_blocks(bs)[i]),
        forall|i: int| 0 <= i < other_blocks(bs).len() ==> !is_tool_result_block(#[trigger] other_blocks(bs)[i]),
    decreases bs.len(),
{
    broadcast use vstd::seq_lib::to_multiset_build, vstd::multiset::group_multiset_axioms;

    if bs.len() == 0 {
        vstd::seq_lib::to_multiset_len(bs);
        vstd::seq_lib::to_multiset_len(tool_result_blocks(bs));
        vstd::seq_lib::to_multiset_len(other_blocks(bs));
        vstd::multiset::lemma_multiset_empty_len(bs.to_multiset());
        vstd::multiset::lemma_multiset_empty_len(tool_result_blocks(bs).to_multiset());
        vstd::multiset::lemma_multiset_empty_len(other_blocks(bs).to_multiset());
    } else {
        let d = bs.drop_last();
        lemma_partition_parts(d);
        assert(bs =~= d.push(bs.last()));
        let tr = tool_result_blocks(d);
        let ob = other_blocks(d);
        if is_tool_result_block(bs.last()) {
            assert forall|i: int| 0 <= i < tool_result_blocks(bs).len() implies is_tool_result_block(
                #[trigger] tool_result_blocks(bs)[i],
            ) by {
                if i < tr.len() {
                    assert(tool_result_blocks(bs)[i] == tr[i]);
                }
            }
        } else {
            assert forall|i: int| 0 <= i < other_blocks(bs).len() implies !is_tool_result_block(
                #[trigger] other_blocks(bs)[i],
            ) by {
                if i < ob.len() {
                    assert(other_blocks(bs)[i] == ob[i]);
                }
            }
        }
    }
}

/// Moving tool results to the front of user content keeps exactly the same
/// blocks (the same multiset, the same length), with every tool result before
/// every other block.
pub proof fn law_reorder_tool_results_first(bs: Seq<SpecJson>)
    ensures
        spec_reorder_tool_results_first(bs).len() == bs.len(),
        spec_reorder_tool_results_first(bs).to_multiset() =~= bs.to_multiset(),
        forall|i: int, j: int|
            0 <= i < j < bs.len() && !is_tool_result_block(#[trigger] spec_reorder_tool_results_first(bs)[i])
                ==> !is_tool_result_block(#[trigger] spec_reorder_tool_results_first(bs)[j]),
{
    broadcast use vstd::seq_lib::lemma_multiset_commutative;

    lemma_partition_parts(bs);
    let tr = tool_result_blocks(bs);
    let ob = other_blocks(bs);
    let r = spec_reorder_tool_results_first(bs);
    assert(r =~= tr + ob);
    assert forall|i: int, j: int|
        0 <= i < j < bs.len() && !is_tool_result_block(#[trigger] r[i]) implies !is_tool_result_block(
            #[trigger] r[j],
        ) by {
        if i < tr.len() {
            assert(r[i] == tr[i]);
        }
        assert(j >= tr.len());
        assert(r[j] == ob[j - tr.len()]);
    }
}

#[verifier::spinoff_prover]
#[verifier::rlimit(60)]
proof fn lemma_merge_shape(ms: Seq<SpecWireMessage>)
    ensures
        ms.len() > 0 ==> spec_merge_consecutive_messages(ms).len() > 0
            && spec_merge_consecutive_messages(ms).last().role == ms.last().role,
        ms.len() == 0 ==> spec_merge_consecutive_messages(ms).len() == 0,
        forall|i: int|
            0 <= i < spec_merge_consecutive_messages(ms).len() - 1 ==> (#[trigger] spec_merge_consecutive_messages(ms)[i]).role
                != spec_merge_consecutive_messages(ms)[i + 1].role,
    decreases ms.len(),
{
    if ms.len() > 0 {
        let d = ms.drop_last();
        lemma_merge_shape(d);
        let merged = spec_merge_consecutive_messages(d);
        let r = spec_merge_consecutive_messages(ms);
        let m = ms.last();
        if merged.len() > 0 && merged.last().role == m.role {
            let x = SpecWireMessage {
                role: m.role,
                content: ordered_content(m.role, merged.last().content + m.content),
            };
            assert(r == merged.update(merged.len() - 1, x));
            assert forall|i: int| 0 <= i < r.len() - 1 implies (#[trigger] r[i]).role != r[i + 1].role by {
                assert(r[i].role == merged[i].role);
                assert(r[i + 1].role == merged[i + 1].role);
            }
        } else {
            let x = SpecWireMessage { role: m.role, content: ordered_content(m.role, m.content) };
            assert(r == merged.push(x));
            assert forall|i: int| 0 <= i < r.len() - 1 implies (#[trigger] r[i]).role != r[i + 1].role by {
                assert(r[i] == merged[i]);
                if i + 1 < merged.len() {
                    assert(r[i + 1] == merged[i + 1]);
                }
            }
        }
    }
}

/// After merging, no two consecutive messages share a role, and the last
/// message has the role of the last input message.
pub proof fn law_merged_roles_alternate(ms: Seq<SpecWireMessage>)
    ensures
        forall|i: int|
            0 <= i < spec_merge_consecutive_messages(ms).len() - 1 ==> (#[trigger] spec_merge_consecutive_messages(ms)[i]).role
                != spec_merge_consecutive_messages(ms)[i + 1].role,
        ms.len() > 0 ==> spec_merge_consecutive_messages(ms).last().role == ms.last().role,
{
    lemma_merge_shape(ms);
}

} // verus!
