//! Decoding of Anthropic Messages responses and error payloads into the
//! canonical response, with non-fatal issues reported as warnings.
use vstd::prelude::*;

use crate::json::{json_str, opt_view, parse_json_text, spec_parse_json, JsonNumber, JsonValue, SpecJson, SpecJsonNumber};
use crate::providers::anthropic::schema_rules::{
    canonicalize_json, extract_first_json_object, spec_canonicalize,
    spec_extract_first_json_object, spec_stable_json_string, stable_json_string,
};
use crate::providers::anthropic::{
    AnthropicDecodeEnvelope, AnthropicErrorEnvelope, AnthropicFamilyError, AnthropicFamilyErrorKind,
    SpecErrorEnvelope,
};
use crate::providers::error::{opt_string_view, AdapterErrorKind, ProviderErrorInfo, SpecProviderErrorInfo};
use crate::text::{concat, concat3, decimal, is_blank_str, owned, signed_decimal, spec_decimal, spec_signed_decimal, spec_trim, str_equal, trim};
use crate::types::response::{
    warnings_view, AssistantOutput, FinishReason, Response, RuntimeWarning, SpecAssistantOutput,
    SpecResponse, SpecRuntimeWarning, Usage,
};
use crate::types::task::{ResponseFormat, SpecResponseFormat};
use crate::types::tool::{opt_json_view, parts_view, ContentPart, SpecContentPart, SpecToolCall};

verus! {

/// A warning with the given code and message.
pub open spec fn warning(code: Seq<char>, message: Seq<char>) -> SpecRuntimeWarning {
    SpecRuntimeWarning { code, message }
}

/// Appends a warning with `code` and `message`.
pub fn push_warning(warnings: &mut Vec<RuntimeWarning>, code: &str, message: &str)
    ensures
        warnings_view(final(warnings)@) == warnings_view(old(warnings)@).push(
            warning(code@, message@),
        ),
{
    let ghost before = warnings_view(warnings@);
    warnings.push(RuntimeWarning { code: owned(code), message: owned(message) });
    assert(warnings_view(warnings@) =~= before.push(warning(code@, message@)));
}

/// The text of a JSON number as `serde_json::Number` writes it.
pub open spec fn number_text(n: SpecJsonNumber) -> Seq<char> {
    match n {
        SpecJsonNumber::PosInt(u) => spec_decimal(u),
        SpecJsonNumber::NegInt(i) => spec_signed_decimal(i),
        SpecJsonNumber::Float(t) => t,
    }
}

/// A scalar as text: trimmed non-blank strings, numbers and booleans.
pub open spec fn spec_value_to_string(v: Option<SpecJson>) -> Option<Seq<char>> {
    match v {
        Some(SpecJson::Str(t)) => if spec_trim(t).len() == 0 {
            None
        } else {
            Some(spec_trim(t))
        },
        Some(SpecJson::Number(n)) => Some(number_text(n)),
        Some(SpecJson::Bool(b)) => Some(
            if b {
                "true"@
            } else {
                "false"@
            },
        ),
        _ => None,
    }
}

/// A scalar as text: trimmed non-blank strings, numbers and booleans; `None`
/// for anything else.
pub fn value_to_string(value: Option<&JsonValue>) -> (r: Option<String>)
    ensures
        opt_string_view(r) == spec_value_to_string(opt_view(value)),
{
    match value {
        Some(JsonValue::String(text)) => {
            if is_blank_str(text.as_str()) {
                None
            } else {
                Some(trim(text.as_str()))
            }
        },
        Some(JsonValue::Number(n)) => match n {
            JsonNumber::PosInt(u) => Some(decimal(*u)),
            JsonNumber::NegInt(i) => Some(signed_decimal(*i)),
            JsonNumber::Float(t) => Some(t.clone()),
        },
        Some(JsonValue::Bool(b)) => {
            if *b {
                Some(owned("true"))
            } else {
                Some(owned("false"))
            }
        },
        _ => None,
    }
}

/// The error payload of an Anthropic body: present when the body has an
/// `error` object and no `type` other than `error`.
pub open spec fn spec_parse_anthropic_error_value(root: SpecJson) -> Option<SpecErrorEnvelope> {
    if root.str_at("type"@) matches Some(t) && t != "error"@ {
        None
    } else {
        match root.get("error"@) {
            Some(e) => if e.is_object() {
                Some(
                    SpecErrorEnvelope {
                        message: match spec_value_to_string(e.get("message"@)) {
                            Some(m) => m,
                            None => "anthropic response reported an error"@,
                        },
                        error_type: spec_value_to_string(e.get("type"@)),
                        request_id: spec_value_to_string(root.get("request_id"@)),
                    },
                )
            } else {
                None
            },
            None => None,
        }
    }
}

/// Reads the error payload of an Anthropic body.
pub fn parse_anthropic_error_value(root: &JsonValue) -> (r: Option<AnthropicErrorEnvelope>)
    ensures
        match r {
            Some(e) => spec_parse_anthropic_error_value(root@) == Some(e@),
            None => spec_parse_anthropic_error_value(root@) is None,
        },
{
    match json_str(root, "type") {
        Some(t) => {
            if !str_equal(t, "error") {
                return None;
            }
        },
        None => {},
    }
    let error_obj = match root.get("error") {
        Some(e) => e,
        None => {
            return None;
        },
    };
    if !error_obj.is_object() {
        return None;
    }
    let message = match value_to_string(error_obj.get("message")) {
        Some(m) => m,
        None => owned("anthropic response reported an error"),
    };
    let error_type = value_to_string(error_obj.get("type"));
    let request_id = value_to_string(root.get("request_id"));
    Some(AnthropicErrorEnvelope { message, error_type, request_id })
}

/// The bracketed context of an error message: `type=...` and `request_id=...`,
/// those present, joined by `, `.
pub open spec fn spec_error_context(e: SpecErrorEnvelope) -> Seq<char> {
    match (e.error_type, e.request_id) {
        (Some(t), Some(id)) => "type="@ + t + ", "@ + "request_id="@ + id,
        (Some(t), None) => "type="@ + t,
        (None, Some(id)) => "request_id="@ + id,
        (None, None) => Seq::empty(),
    }
}

/// `anthropic error: <message>`, followed by ` [<context>]` when there is context.
pub open spec fn spec_format_anthropic_error_message(e: SpecErrorEnvelope) -> Seq<char> {
    if e.error_type is None && e.request_id is None {
        "anthropic error: "@ + e.message
    } else {
        "anthropic error: "@ + e.message + " ["@ + spec_error_context(e) + "]"@
    }
}

/// Renders an error payload as one message line.
pub fn format_anthropic_error_message(envelope: &AnthropicErrorEnvelope) -> (r: String)
    ensures
        r@ == spec_format_anthropic_error_message(envelope@),
{
    let head = concat("anthropic error: ", envelope.message.as_str());
    match (&envelope.error_type, &envelope.request_id) {
        (None, None) => head,
        (Some(t), None) => {
            let ctx = concat("type=", t.as_str());
            let r = concat3(head.as_str(), " [", ctx.as_str());
            let r2 = concat(r.as_str(), "]");
            assert(r2@ =~= spec_format_anthropic_error_message(envelope@));
            r2
        },
        (None, Some(id)) => {
            let ctx = concat("request_id=", id.as_str());
            let r = concat3(head.as_str(), " [", ctx.as_str());
            let r2 = concat(r.as_str(), "]");
            assert(r2@ =~= spec_format_anthropic_error_message(envelope@));
            r2
        },
        (Some(t), Some(id)) => {
            let c1 = concat3("type=", t.as_str(), ", ");
            let ctx = concat3(c1.as_str(), "request_id=", id.as_str());
            let r = concat3(head.as_str(), " [", ctx.as_str());
            let r2 = concat(r.as_str(), "]");
            assert(r2@ =~= spec_format_anthropic_error_message(envelope@));
            r2
        },
    }
}

/// The provider error details of an Anthropic body, when it is an error payload.
pub open spec fn spec_decode_anthropic_error(body: SpecJson) -> Option<SpecProviderErrorInfo> {
    if !body.is_object() {
        None
    } else {
        match spec_parse_anthropic_error_value(body) {
            Some(e) => Some(
                SpecProviderErrorInfo {
                    provider_code: None,
                    message: Some(spec_format_anthropic_error_message(e)),
                    kind: Some(AdapterErrorKind::Upstream),
                },
            ),
            None => None,
        }
    }
}

/// Decodes the provider error details of an Anthropic body: an upstream error
/// with the rendered message and no provider code.
pub fn decode_anthropic_error(body: &JsonValue) -> (r: Option<ProviderErrorInfo>)
    ensures
        match r {
            Some(i) => spec_decode_anthropic_error(body@) == Some(i@),
            None => spec_decode_anthropic_error(body@) is None,
        },
{
    if !body.is_object() {
        return None;
    }
    match parse_anthropic_error_value(body) {
        Some(e) => Some(
            ProviderErrorInfo {
                provider_code: None,
                message: Some(format_anthropic_error_message(&e)),
                kind: Some(AdapterErrorKind::Upstream),
            },
        ),
        None => None,
    }
}

/// What decoding has gathered so far: content parts, the texts of text
/// blocks, and warnings.
pub struct DecodeAcc {
    pub content: Seq<SpecContentPart>,
    pub text_blocks: Seq<Seq<char>>,
    pub warnings: Seq<SpecRuntimeWarning>,
}

/// The effect of one content block on what decoding has gathered, or the
/// message of the decode error it raises.
pub open spec fn spec_decode_content_block(block: SpecJson, acc: DecodeAcc) -> Result<DecodeAcc, Seq<char>> {
    if !block.is_object() {
        Err("anthropic content block must be object"@)
    } else {
        match block.str_at("type"@) {
            None => Err("anthropic content block missing type"@),
            Some(t) => if t == "text"@ {
                match block.str_at("text"@) {
                    None => Err("text content block missing text"@),
                    Some(x) => Ok(
                        DecodeAcc {
                            content: acc.content.push(SpecContentPart::Text { text: x }),
                            text_blocks: acc.text_blocks.push(x),
                            warnings: acc.warnings,
                        },
                    ),
                }
            } else if t == "tool_use"@ {
                match (block.str_at("id"@), block.str_at("name"@), block.get("input"@)) {
                    (None, _, _) => Err("tool_use block missing id"@),
                    (Some(_), None, _) => Err("tool_use block missing name"@),
                    (Some(_), Some(_), None) => Err("tool_use block missing input"@),
                    (Some(id), Some(name), Some(input)) => if !input.is_object() {
                        Err("tool_use input must be a JSON object"@)
                    } else {
                        Ok(
                            DecodeAcc {
                                content: acc.content.push(
                                    SpecContentPart::ToolCall {
                                        tool_call: SpecToolCall { id, name, arguments_json: input },
                                    },
                                ),
                                ..acc
                            },
                        )
                    },
                }
            } else if t == "thinking"@ || t == "redacted_thinking"@ {
                Ok(
                    DecodeAcc {
                        warnings: acc.warnings.push(
                            warning(
                                "anthropic.decode.unrepresentable_thinking_skipped"@,
                                "anthropic content block type '"@ + t
                                    + "' is not representable and was skipped"@,
                            ),
                        ),
                        ..acc
                    },
                )
            } else {
                Ok(
                    DecodeAcc {
                        content: acc.content.push(
                            SpecContentPart::Text {
                                text: spec_stable_json_string(spec_canonicalize(block)),
                            },
                        ),
                        warnings: acc.warnings.push(
                            warning(
                                "anthropic.decode.unknown_content_block_mapped_to_text"@,
                                "anthropic content block type '"@ + t
                                    + "' mapped to canonical text via JSON"@,
                            ),
                        ),
                        ..acc
                    },
                )
            },
        }
    }
}

/// The accumulator built from exec buffers.
pub open spec fn acc_of(
    content: Seq<ContentPart>,
    text_blocks: Seq<String>,
    warnings: Seq<RuntimeWarning>,
) -> DecodeAcc {
    DecodeAcc {
        content: parts_view(content),
        text_blocks: text_blocks.map_values(|s: String| s@),
        warnings: warnings_view(warnings),
    }
}

/// Decodes one content block into content parts, text-block texts and warnings.
/// Text and tool-use blocks become parts; thinking blocks are skipped with a
/// warning; other blocks become their canonical JSON text, with a warning.
/// On error nothing is appended.
pub fn decode_content_block(
    block: &JsonValue,
    content: &mut Vec<ContentPart>,
    text_blocks: &mut Vec<String>,
    warnings: &mut Vec<RuntimeWarning>,
) -> (r: Result<(), AnthropicFamilyError>)
    ensures
        match spec_decode_content_block(block@, acc_of(old(content)@, old(text_blocks)@, old(warnings)@)) {
            Ok(a) => r is Ok && acc_of(final(content)@, final(text_blocks)@, final(warnings)@) == a,
            Err(m) => r matches Err(e) && e.spec_kind() == AnthropicFamilyErrorKind::Decode
                && e.spec_message() == m && final(content)@ == old(content)@ && final(text_blocks)@
                == old(text_blocks)@ && final(warnings)@ == old(warnings)@,
        },
{
    let ghost acc = acc_of(content@, text_blocks@, warnings@);
    if !block.is_object() {
        return Err(AnthropicFamilyError::decode("anthropic content block must be object"));
    }
    let block_type = match json_str(block, "type") {
        Some(t) => t,
        None => {
            return Err(AnthropicFamilyError::decode("anthropic content block missing type"));
        },
    };
    if str_equal(block_type, "text") {
        let text = match json_str(block, "text") {
            Some(t) => t,
            None => {
                return Err(AnthropicFamilyError::decode("text content block missing text"));
            },
        };
        let ghost tb = text_blocks@;
        text_blocks.push(owned(text));
        let ghost cb = content@;
        content.push(ContentPart::text(text));
        assert(text_blocks@.map_values(|s: String| s@) =~= tb.map_values(|s: String| s@).push(text@));
        assert(parts_view(content@) =~= parts_view(cb).push(SpecContentPart::Text { text: text@ }));
        Ok(())
    } else if str_equal(block_type, "tool_use") {
        let id = match json_str(block, "id") {
            Some(x) => x,
            None => {
                return Err(AnthropicFamilyError::decode("tool_use block missing id"));
            },
        };
        let name = match json_str(block, "name") {
            Some(x) => x,
            None => {
                return Err(AnthropicFamilyError::decode("tool_use block missing name"));
            },
        };
        let input = match block.get("input") {
            Some(x) => x,
            None => {
                return Err(AnthropicFamilyError::decode("tool_use block missing input"));
            },
        };
        if !input.is_object() {
            return Err(AnthropicFamilyError::decode("tool_use input must be a JSON object"));
        }
        let ghost cb = content@;
        content.push(ContentPart::tool_call(id, name, input.copy()));
        assert(parts_view(content@) =~= parts_view(cb).push(
            SpecContentPart::ToolCall {
                tool_call: SpecToolCall { id: id@, name: name@, arguments_json: input@ },
            },
        ));
        Ok(())
    } else if str_equal(block_type, "thinking") || str_equal(block_type, "redacted_thinking") {
        let message = concat3(
            "anthropic content block type '",
            block_type,
            "' is not representable and was skipped",
        );
        push_warning(warnings, "anthropic.decode.unrepresentable_thinking_skipped", message.as_str());
        Ok(())
    } else {
        let message = concat3(
            "anthropic content block type '",
            block_type,
            "' mapped to canonical text via JSON",
        );
        push_warning(warnings, "anthropic.decode.unknown_content_block_mapped_to_text", message.as_str());
        let canonical = canonicalize_json(block);
        let text = stable_json_string(&canonical);
        let ghost cb = content@;
        content.push(ContentPart::Text { text });
        assert(parts_view(content@) =~= parts_view(cb).push(
            SpecContentPart::Text { text: spec_stable_json_string(spec_canonicalize(block@)) },
        ));
        Ok(())
    }
}

/// The effect of a list of content blocks, in order; the first error wins.
pub open spec fn spec_decode_content_blocks(blocks: Seq<SpecJson>, acc: DecodeAcc) -> Result<
    DecodeAcc,
    Seq<char>,
>
    decreases blocks.len(),
{
    if blocks.len() == 0 {
        Ok(acc)
    } else {
        match spec_decode_content_blocks(blocks.drop_last(), acc) {
            Ok(a) => spec_decode_content_block(blocks.last(), a),
            Err(m) => Err(m),
        }
    }
}

/// The canonical finish reason of an Anthropic stop reason, and the warnings
/// after it: unknown reasons map to `Other` with a warning.
pub open spec fn spec_map_finish_reason(stop_reason: Seq<char>, ws: Seq<SpecRuntimeWarning>) -> (
    FinishReason,
    Seq<SpecRuntimeWarning>,
) {
    if stop_reason == "end_turn"@ || stop_reason == "stop_sequence"@ {
        (FinishReason::Stop, ws)
    } else if stop_reason == "max_tokens"@ {
        (FinishReason::Length, ws)
    } else if stop_reason == "tool_use"@ {
        (FinishReason::ToolCalls, ws)
    } else if stop_reason == "refusal"@ {
        (FinishReason::ContentFilter, ws)
    } else if stop_reason == "pause_turn"@ {
        (FinishReason::Other, ws)
    } else {
        (
            FinishReason::Other,
            ws.push(
                warning(
                    "anthropic.decode.unknown_stop_reason"@,
                    "unknown anthropic stop_reason '"@ + stop_reason + "' mapped to Other"@,
                ),
            ),
        )
    }
}

/// Maps an Anthropic stop reason to the canonical finish reason.
pub fn map_finish_reason(stop_reason: &str, warnings: &mut Vec<RuntimeWarning>) -> (r: FinishReason)
    ensures
        (r, warnings_view(final(warnings)@)) == spec_map_finish_reason(
            stop_reason@,
            warnings_view(old(warnings)@),
        ),
{
    if str_equal(stop_reason, "end_turn") || str_equal(stop_reason, "stop_sequence") {
        FinishReason::Stop
    } else if str_equal(stop_reason, "max_tokens") {
        FinishReason::Length
    } else if str_equal(stop_reason, "tool_use") {
        FinishReason::ToolCalls
    } else if str_equal(stop_reason, "refusal") {
        FinishReason::ContentFilter
    } else if str_equal(stop_reason, "pause_turn") {
        FinishReason::Other
    } else {
        let message = concat3("unknown anthropic stop_reason '", stop_reason, "' mapped to Other");
        push_warning(warnings, "anthropic.decode.unknown_stop_reason", message.as_str());
        FinishReason::Other
    }
}

/// `lhs + rhs`, or `None` with an overflow warning naming `expression`.
pub open spec fn spec_checked_add_with_warning(
    lhs: u64,
    rhs: u64,
    expression: Seq<char>,
    ws: Seq<SpecRuntimeWarning>,
) -> (Option<u64>, Seq<SpecRuntimeWarning>) {
    if lhs + rhs <= u64::MAX {
        (Some((lhs + rhs) as u64), ws)
    } else {
        (
            None,
            ws.push(
                warning(
                    "anthropic.decode.usage_overflow"@,
                    "anthropic usage overflow while computing "@ + expression,
                ),
            ),
        )
    }
}

/// Adds two token counts, warning instead of overflowing.
pub fn checked_add_with_warning(
    lhs: u64,
    rhs: u64,
    expression: &str,
    warnings: &mut Vec<RuntimeWarning>,
) -> (r: Option<u64>)
    ensures
        (r, warnings_view(final(warnings)@)) == spec_checked_add_with_warning(
            lhs,
            rhs,
            expression@,
            warnings_view(old(warnings)@),
        ),
{
    match lhs.checked_add(rhs) {
        Some(sum) => Some(sum),
        None => {
            let message = concat("anthropic usage overflow while computing ", expression);
            push_warning(warnings, "anthropic.decode.usage_overflow", message.as_str());
            None
        },
    }
}

/// A usage counter: absent, an unsigned integer, or the message of the error.
pub open spec fn spec_parse_usage_u64(value: Option<SpecJson>, field_name: Seq<char>) -> Result<
    Option<u64>,
    Seq<char>,
> {
    match value {
        None => Ok(None),
        Some(SpecJson::Number(SpecJsonNumber::PosInt(n))) => Ok(Some(n)),
        Some(SpecJson::Number(_)) => Err(
            "anthropic usage field '"@ + field_name + "' must be an unsigned integer"@,
        ),
        Some(_) => Err("anthropic usage field '"@ + field_name + "' must be numeric"@),
    }
}

/// Reads a usage counter: absent, or an unsigned integer; anything else is a decode error.
pub fn parse_usage_u64(value: Option<&JsonValue>, field_name: &str) -> (r: Result<
    Option<u64>,
    AnthropicFamilyError,
>)
    ensures
        match spec_parse_usage_u64(opt_view(value), field_name@) {
            Ok(n) => r == Ok::<Option<u64>, AnthropicFamilyError>(n),
            Err(m) => r matches Err(e) && e.spec_kind() == AnthropicFamilyErrorKind::Decode
                && e.spec_message() == m,
        },
{
    match value {
        None => Ok(None),
        Some(JsonValue::Number(n)) => match n {
            JsonNumber::PosInt(u) => Ok(Some(*u)),
            _ => {
                let m = concat3("anthropic usage field '", field_name, "' must be an unsigned integer");
                Err(AnthropicFamilyError::decode(m.as_str()))
            },
        },
        Some(_) => {
            let m = concat3("anthropic usage field '", field_name, "' must be numeric");
            Err(AnthropicFamilyError::decode(m.as_str()))
        },
    }
}

/// Canonical usage of an Anthropic usage object, with the warnings after it, or
/// the message of the decode error. Billed input is input plus cache creation
/// plus cache reads; the total adds output. A sum that overflows is dropped
/// with a warning; a missing object gives empty usage with a warning.
pub open spec fn spec_decode_usage(usage: Option<SpecJson>, ws: Seq<SpecRuntimeWarning>) -> Result<
    (Usage, Seq<SpecRuntimeWarning>),
    Seq<char>,
> {
    match usage {
        None => Ok(
            (
                Usage { input_tokens: None, output_tokens: None, cached_input_tokens: None, total_tokens: None },
                ws.push(
                    warning("anthropic.decode.usage_missing"@, "anthropic response missing usage object"@),
                ),
            ),
        ),
        Some(u) => if !u.is_object() {
            Err("anthropic usage must be a JSON object"@)
        } else {
            match spec_parse_usage_u64(u.get("input_tokens"@), "input_tokens"@) {
                Err(m) => Err(m),
                Ok(input) => match spec_parse_usage_u64(
                    u.get("cache_creation_input_tokens"@),
                    "cache_creation_input_tokens"@,
                ) {
                    Err(m) => Err(m),
                    Ok(creation) => match spec_parse_usage_u64(
                        u.get("cache_read_input_tokens"@),
                        "cache_read_input_tokens"@,
                    ) {
                        Err(m) => Err(m),
                        Ok(read) => match spec_parse_usage_u64(u.get("output_tokens"@), "output_tokens"@) {
                            Err(m) => Err(m),
                            Ok(output) => {
                                let ws1 = if input is None || output is None {
                                    ws.push(
                                        warning(
                                            "anthropic.decode.usage_partial"@,
                                            "anthropic usage object missing required token fields"@,
                                        ),
                                    )
                                } else {
                                    ws
                                };
                                let (billed, ws2) = match input {
                                    Some(base) => {
                                        let (with_creation, wsa) = spec_checked_add_with_warning(
                                            base,
                                            or_zero_u64(creation),
                                            "input_tokens + cache_creation_input_tokens"@,
                                            ws1,
                                        );
                                        match with_creation {
                                            Some(sum) => spec_checked_add_with_warning(
                                                sum,
                                                or_zero_u64(read),
                                                "input_tokens + cache_creation_input_tokens + cache_read_input_tokens"@,
                                                wsa,
                                            ),
                                            None => (None, wsa),
                                        }
                                    },
                                    None => (None, ws1),
                                };
                                let (total, ws3) = match (billed, output) {
                                    (Some(i), Some(o)) => spec_checked_add_with_warning(
                                        i,
                                        o,
                                        "billed_input + output_tokens"@,
                                        ws2,
                                    ),
                                    _ => (None, ws2),
                                };
                                Ok(
                                    (
                                        Usage {
                                            input_tokens: billed,
                                            output_tokens: output,
                                            cached_input_tokens: read,
                                            total_tokens: total,
                                        },
                                        ws3,
                                    ),
                                )
                            },
                        },
                    },
                },
            }
        },
    }
}

/// A counter, or zero.
pub open spec fn or_zero_u64(v: Option<u64>) -> u64 {
    match v {
        Some(x) => x,
        None => 0,
    }
}

/// Decodes an Anthropic usage object into canonical usage.
pub fn decode_usage(usage_value: Option<&JsonValue>, warnings: &mut Vec<RuntimeWarning>) -> (r: Result<
    Usage,
    AnthropicFamilyError,
>)
    ensures
        match spec_decode_usage(opt_view(usage_value), warnings_view(old(warnings)@)) {
            Ok((u, ws)) => r == Ok::<Usage, AnthropicFamilyError>(u) && warnings_view(final(warnings)@) == ws,
            Err(m) => r matches Err(e) && e.spec_kind() == AnthropicFamilyErrorKind::Decode
                && e.spec_message() == m && final(warnings)@ == old(warnings)@,
        },
{
    let usage_value = match usage_value {
        Some(v) => v,
        None => {
            push_warning(warnings, "anthropic.decode.usage_missing", "anthropic response missing usage object");
            return Ok(Usage { input_tokens: None, output_tokens: None, cached_input_tokens: None, total_tokens: None });
        },
    };
    if !usage_value.is_object() {
        return Err(AnthropicFamilyError::decode("anthropic usage must be a JSON object"));
    }
    let input_tokens = match parse_usage_u64(usage_value.get("input_tokens"), "input_tokens") {
        Ok(v) => v,
        Err(e) => {
            return Err(e);
        },
    };
    let cache_creation_input_tokens = match parse_usage_u64(
        usage_value.get("cache_creation_input_tokens"),
        "cache_creation_input_tokens",
    ) {
        Ok(v) => v,
        Err(e) => {
            return Err(e);
        },
    };
    let cache_read_input_tokens = match parse_usage_u64(
        usage_value.get("cache_read_input_tokens"),
        "cache_read_input_tokens",
    ) {
        Ok(v) => v,
        Err(e) => {
            return Err(e);
        },
    };
    let output_tokens = match parse_usage_u64(usage_value.get("output_tokens"), "output_tokens") {
        Ok(v) => v,
        Err(e) => {
            return Err(e);
        },
    };
    if input_tokens.is_none() || output_tokens.is_none() {
        push_warning(
            warnings,
            "anthropic.decode.usage_partial",
            "anthropic usage object missing required token fields",
        );
    }
    let creation = match cache_creation_input_tokens {
        Some(x) => x,
        None => 0,
    };
    let read = match cache_read_input_tokens {
        Some(x) => x,
        None => 0,
    };
    let billed_input = match input_tokens {
        Some(base) => {
            let with_creation = checked_add_with_warning(
                base,
                creation,
                "input_tokens + cache_creation_input_tokens",
                warnings,
            );
            match with_creation {
                Some(sum) => checked_add_with_warning(
                    sum,
                    read,
                    "input_tokens + cache_creation_input_tokens + cache_read_input_tokens",
                    warnings,
                ),
                None => None,
            }
        },
        None => None,
    };
    let total_tokens = match (billed_input, output_tokens) {
        (Some(input), Some(output)) => checked_add_with_warning(
            input,
            output,
            "billed_input + output_tokens",
            warnings,
        ),
        _ => None,
    };
    Ok(
        Usage {
            input_tokens: billed_input,
            output_tokens,
            cached_input_tokens: cache_read_input_tokens,
            total_tokens,
        },
    )
}

/// The texts joined with `sep` between consecutive ones.
pub open spec fn spec_join(texts: Seq<Seq<char>>, sep: Seq<char>) -> Seq<char>
    decreases texts.len(),
{
    if texts.len() == 0 {
        Seq::empty()
    } else if texts.len() == 1 {
        texts[0]
    } else {
        spec_join(texts.drop_last(), sep) + sep + texts.last()
    }
}

/// The texts of `texts`, one per line.
pub fn join_lines(texts: &Vec<String>) -> (r: String)
    ensures
        r@ == spec_join(texts@.map_values(|s: String| s@), "\n"@),
{
    let ghost all = texts@.map_values(|s: String| s@);
    let mut out = String::new();
    let mut i: usize = 0;
    assert(all.take(0) =~= Seq::<Seq<char>>::empty());
    while i < texts.len()
        invariant
            i <= texts.len(),
            all == texts@.map_values(|s: String| s@),
            out@ == spec_join(all.take(i as int), "\n"@),
        decreases texts.len() - i,
    {
        assert(all.take(i + 1).drop_last() =~= all.take(i as int));
        assert(all.take(i + 1).last() == texts@[i as int]@);
        if i > 0 {
            out.append("\n");
        }
        out.append(texts[i].as_str());
        i = i + 1;
    }
    assert(all.take(texts.len() as int) =~= all);
    out
}

/// The model of a JSON parse result.
pub open spec fn parsed_view(parsed: Result<JsonValue, String>) -> Result<SpecJson, Seq<char>> {
    match parsed {
        Ok(v) => Ok(v@),
        Err(e) => Err(e@),
    }
}

/// The first of the parse results, from `i` on, that is a JSON object.
pub open spec fn spec_first_parsed_object(parses: Seq<Result<SpecJson, Seq<char>>>, i: int) -> Option<SpecJson>
    decreases parses.len() - i,
{
    if i < 0 || i >= parses.len() {
        None
    } else {
        match parses[i] {
            Ok(v) => if v.is_object() {
                Some(v)
            } else {
                spec_first_parsed_object(parses, i + 1)
            },
            Err(_) => spec_first_parsed_object(parses, i + 1),
        }
    }
}

/// What parsing each text as JSON gives.
pub open spec fn parses_of(texts: Seq<Seq<char>>) -> Seq<Result<SpecJson, Seq<char>>> {
    texts.map_values(|t: Seq<char>| spec_parse_json(t))
}

/// The warning for a `json_object` output that no text yields.
pub open spec fn json_object_parse_failure() -> SpecRuntimeWarning {
    warning(
        "anthropic.decode.structured_output_parse_failed"@,
        "failed to parse json_object structured output from anthropic text blocks"@,
    )
}

/// The structured output of a JSON schema format given what parsing the first
/// text block gave: the document, or nothing and a warning naming the error.
pub open spec fn spec_schema_output(parsed: Result<SpecJson, Seq<char>>, ws: Seq<SpecRuntimeWarning>) -> (
    Option<SpecJson>,
    Seq<SpecRuntimeWarning>,
) {
    match parsed {
        Ok(v) => (Some(v), ws),
        Err(e) => (
            None,
            ws.push(
                warning(
                    "anthropic.decode.structured_output_parse_failed"@,
                    "failed to parse structured output JSON: "@ + e,
                ),
            ),
        ),
    }
}

/// The structured output of a JSON object format when no text block is an
/// object, given what parsing the first balanced object of the joined texts
/// gave (`None` when there is no such object): an object, or nothing and a warning.
pub open spec fn spec_object_fallback(
    extracted: Option<Result<SpecJson, Seq<char>>>,
    ws: Seq<SpecRuntimeWarning>,
) -> (Option<SpecJson>, Seq<SpecRuntimeWarning>) {
    match extracted {
        Some(Ok(v)) => if v.is_object() {
            (Some(v), ws)
        } else {
            (None, ws.push(json_object_parse_failure()))
        },
        _ => (None, ws.push(json_object_parse_failure())),
    }
}

/// The structured output of a response, with the warnings after it. A JSON
/// schema format parses the first text block; a JSON object format takes the
/// first text block that parses to an object, else the first balanced object
/// in all texts joined by newlines; a failure leaves a warning.
pub open spec fn spec_decode_structured_output(
    format: SpecResponseFormat,
    texts: Seq<Seq<char>>,
    ws: Seq<SpecRuntimeWarning>,
) -> (Option<SpecJson>, Seq<SpecRuntimeWarning>) {
    match format {
        SpecResponseFormat::Text => (None, ws),
        SpecResponseFormat::JsonSchema { .. } => if texts.len() == 0 {
            (None, ws)
        } else {
            spec_schema_output(spec_parse_json(texts[0]), ws)
        },
        SpecResponseFormat::JsonObject => match spec_first_parsed_object(parses_of(texts), 0) {
            Some(v) => (Some(v), ws),
            None => spec_object_fallback(
                match spec_extract_first_json_object(spec_join(texts, "\n"@)) {
                    Some(o) => Some(spec_parse_json(o)),
                    None => None,
                },
                ws,
            ),
        },
    }
}

/// The structured output of a JSON schema format given what parsing the first
/// text block gave; a parse error leaves a warning.
pub fn schema_output_from_parse(parsed: Result<JsonValue, String>, warnings: &mut Vec<RuntimeWarning>) -> (r:
    Option<JsonValue>)
    ensures
        ({
            let (o, ws) = spec_schema_output(parsed_view(parsed), warnings_view(old(warnings)@));
            &&& opt_json_view(r) == o
            &&& warnings_view(final(warnings)@) == ws
        }),
{
    match parsed {
        Ok(v) => Some(v),
        Err(error) => {
            let message = concat("failed to parse structured output JSON: ", error.as_str());
            push_warning(warnings, "anthropic.decode.structured_output_parse_failed", message.as_str());
            None
        },
    }
}

/// The first of the parse results that is a JSON object.
pub fn first_parsed_object(parses: &Vec<Result<JsonValue, String>>) -> (r: Option<JsonValue>)
    ensures
        opt_json_view(r) == spec_first_parsed_object(
            parses@.map_values(|p: Result<JsonValue, String>| parsed_view(p)),
            0,
        ),
{
    let ghost ps = parses@.map_values(|p: Result<JsonValue, String>| parsed_view(p));
    let mut i: usize = 0;
    while i < parses.len()
        invariant
            i <= parses.len(),
            ps == parses@.map_values(|p: Result<JsonValue, String>| parsed_view(p)),
            spec_first_parsed_object(ps, i as int) == spec_first_parsed_object(ps, 0),
        decreases parses.len() - i,
    {
        assert(ps[i as int] == parsed_view(parses@[i as int]));
        match &parses[i] {
            Ok(v) => {
                if v.is_object() {
                    return Some(v.copy());
                }
            },
            Err(_) => {},
        }
        i = i + 1;
    }
    None
}

/// The structured output of a JSON object format when no text block is an
/// object, given what parsing the extracted object text gave; failure leaves a warning.
pub fn object_output_from_fallback(
    extracted: Option<Result<JsonValue, String>>,
    warnings: &mut Vec<RuntimeWarning>,
) -> (r: Option<JsonValue>)
    ensures
        ({
            let (o, ws) = spec_object_fallback(
                match extracted {
                    Some(p) => Some(parsed_view(p)),
                    None => None,
                },
                warnings_view(old(warnings)@),
            );
            &&& opt_json_view(r) == o
            &&& warnings_view(final(warnings)@) == ws
        }),
{
    match extracted {
        Some(Ok(v)) => {
            if v.is_object() {
                return Some(v);
            }
        },
        _ => {},
    }
    push_warning(
        warnings,
        "anthropic.decode.structured_output_parse_failed",
        "failed to parse json_object structured output from anthropic text blocks",
    );
    None
}

/// Decodes the structured output the caller asked for from the text blocks.
pub fn decode_structured_output(
    requested_response_format: &ResponseFormat,
    text_blocks: &Vec<String>,
    warnings: &mut Vec<RuntimeWarning>,
) -> (r: Option<JsonValue>)
    ensures
        ({
            let (o, ws) = spec_decode_structured_output(
                requested_response_format@,
                text_blocks@.map_values(|s: String| s@),
                warnings_view(old(warnings)@),
            );
            &&& opt_json_view(r) == o
            &&& warnings_view(final(warnings)@) == ws
        }),
{
    let ghost texts = text_blocks@.map_values(|s: String| s@);
    match requested_response_format {
        ResponseFormat::Text => None,
        ResponseFormat::JsonSchema { .. } => {
            if text_blocks.len() == 0 {
                return None;
            }
            assert(texts[0] == text_blocks@[0]@);
            schema_output_from_parse(parse_json_text(text_blocks[0].as_str()), warnings)
        },
        ResponseFormat::JsonObject => {
            let mut parses: Vec<Result<JsonValue, String>> = Vec::new();
            let mut i: usize = 0;
            while i < text_blocks.len()
                invariant
                    i <= text_blocks.len(),
                    texts == text_blocks@.map_values(|s: String| s@),
                    parses@.map_values(|p: Result<JsonValue, String>| parsed_view(p)) == parses_of(
                        texts,
                    ).take(i as int),
                decreases text_blocks.len() - i,
            {
                let ghost before = parses@.map_values(|p: Result<JsonValue, String>| parsed_view(p));
                let parsed = parse_json_text(text_blocks[i].as_str());
                assert(parsed_view(parsed) == spec_parse_json(texts[i as int]));
                parses.push(parsed);
                assert(parses@.map_values(|p: Result<JsonValue, String>| parsed_view(p)) =~= before.push(
                    spec_parse_json(texts[i as int]),
                ));
                assert(parses_of(texts).take(i + 1) =~= parses_of(texts).take(i as int).push(
                    spec_parse_json(texts[i as int]),
                ));
                i = i + 1;
            }
            assert(parses_of(texts).take(text_blocks.len() as int) =~= parses_of(texts));
            match first_parsed_object(&parses) {
                Some(v) => {
                    return Some(v);
                },
                None => {},
            }
            let combined = join_lines(text_blocks);
            let extracted = match extract_first_json_object(combined.as_str()) {
                Some(object_text) => Some(parse_json_text(object_text.as_str())),
                None => None,
            };
            object_output_from_fallback(extracted, warnings)
        },
    }
}

/// The decode error of an Anthropic response body, or the response: the body
/// must be an object without an error payload, with role `assistant`, a
/// non-empty `stop_reason` and a `content` array whose blocks all decode.
pub open spec fn spec_decode_anthropic_response(body: SpecJson, format: SpecResponseFormat) -> Result<
    SpecResponse,
    (AnthropicFamilyErrorKind, Seq<char>),
> {
    if !body.is_object() {
        Err((AnthropicFamilyErrorKind::Decode, "response payload must be a JSON object"@))
    } else if spec_decode_anthropic_error(body) is Some {
        Err(
            (
                AnthropicFamilyErrorKind::Upstream,
                match spec_decode_anthropic_error(body)->0.message {
                    Some(m) => m,
                    None => "anthropic response reported an error"@,
                },
            ),
        )
    } else {
        let model = match body.str_at("model"@) {
            Some(m) => m,
            None => "<unknown-model>"@,
        };
        match body.str_at("role"@) {
            None => Err((AnthropicFamilyErrorKind::Decode, "anthropic response missing role"@)),
            Some(role) => if role != "assistant"@ {
                Err(
                    (
                        AnthropicFamilyErrorKind::Decode,
                        "anthropic response role must be assistant, got "@ + role,
                    ),
                )
            } else {
                match body.str_at("stop_reason"@) {
                    None => Err((AnthropicFamilyErrorKind::Decode, "anthropic response missing stop_reason"@)),
                    Some(stop) => if stop.len() == 0 {
                        Err((AnthropicFamilyErrorKind::Decode, "anthropic stop_reason must not be empty"@))
                    } else {
                        match body.get("content"@) {
                            Some(SpecJson::Array(blocks)) => match spec_decode_content_blocks(
                                blocks,
                                DecodeAcc { content: seq![], text_blocks: seq![], warnings: seq![] },
                            ) {
                                Err(m) => Err((AnthropicFamilyErrorKind::Decode, m)),
                                Ok(acc) => {
                                    let ws1 = if acc.content.len() == 0 {
                                        acc.warnings.push(
                                            warning(
                                                "anthropic.decode.empty_output"@,
                                                "anthropic response produced no decodable content parts"@,
                                            ),
                                        )
                                    } else {
                                        acc.warnings
                                    };
                                    let (structured, ws2) = spec_decode_structured_output(
                                        format,
                                        acc.text_blocks,
                                        ws1,
                                    );
                                    match spec_decode_usage(body.get("usage"@), ws2) {
                                        Err(m) => Err((AnthropicFamilyErrorKind::Decode, m)),
                                        Ok((usage, ws3)) => {
                                            let (finish_reason, ws4) = spec_map_finish_reason(stop, ws3);
                                            Ok(
                                                SpecResponse {
                                                    output: SpecAssistantOutput {
                                                        content: acc.content,
                                                        structured_output: structured,
                                                    },
                                                    usage,
                                                    model,
                                                    raw_provider_response: None,
                                                    finish_reason,
                                                    warnings: ws4,
                                                },
                                            )
                                        },
                                    }
                                },
                            },
                            _ => Err((AnthropicFamilyErrorKind::Decode, "anthropic response missing content array"@)),
                        }
                    },
                }
            },
        }
    }
}

/// Decodes an Anthropic Messages response into the canonical response.
#[verifier::loop_isolation(false)]
pub fn decode_anthropic_response(payload: &AnthropicDecodeEnvelope) -> (r: Result<
    Response,
    AnthropicFamilyError,
>)
    ensures
        match spec_decode_anthropic_response(payload.body@, payload.requested_response_format@) {
            Ok(resp) => r matches Ok(x) && x@ == resp,
            Err((k, m)) => r matches Err(e) && e.spec_kind() == k && e.spec_message() == m,
        },
{
    let body = &payload.body;
    if !body.is_object() {
        return Err(AnthropicFamilyError::decode("response payload must be a JSON object"));
    }
    match decode_anthropic_error(body) {
        Some(error) => {
            let message = match error.message {
                Some(m) => m,
                None => owned("anthropic response reported an error"),
            };
            return Err(AnthropicFamilyError::upstream(message.as_str()));
        },
        None => {},
    }
    let model = match json_str(body, "model") {
        Some(m) => owned(m),
        None => owned("<unknown-model>"),
    };
    let role = match json_str(body, "role") {
        Some(r) => r,
        None => {
            return Err(AnthropicFamilyError::decode("anthropic response missing role"));
        },
    };
    if !str_equal(role, "assistant") {
        let m = concat("anthropic response role must be assistant, got ", role);
        return Err(AnthropicFamilyError::decode(m.as_str()));
    }
    let stop_reason = match json_str(body, "stop_reason") {
        Some(s) => s,
        None => {
            return Err(AnthropicFamilyError::decode("anthropic response missing stop_reason"));
        },
    };
    if stop_reason.unicode_len() == 0 {
        return Err(AnthropicFamilyError::decode("anthropic stop_reason must not be empty"));
    }
    let content_blocks = match body.get("content") {
        Some(c) => match c.as_array() {
            Some(items) => items,
            None => {
                return Err(AnthropicFamilyError::decode("anthropic response missing content array"));
            },
        },
        None => {
            return Err(AnthropicFamilyError::decode("anthropic response missing content array"));
        },
    };
    let ghost blocks = Seq::new(content_blocks.len() as nat, |i: int| content_blocks@[i]@);
    let ghost empty_acc = DecodeAcc { content: seq![], text_blocks: seq![], warnings: seq![] };
    let mut warnings: Vec<RuntimeWarning> = Vec::new();
    let mut content: Vec<ContentPart> = Vec::new();
    let mut text_blocks: Vec<String> = Vec::new();
    assert(acc_of(content@, text_blocks@, warnings@) =~= empty_acc) by {
        assert(parts_view(content@) =~= Seq::<SpecContentPart>::empty());
        assert(text_blocks@.map_values(|s: String| s@) =~= Seq::<Seq<char>>::empty());
        assert(warnings_view(warnings@) =~= Seq::<SpecRuntimeWarning>::empty());
    }
    let mut i: usize = 0;
    assert(blocks.take(0) =~= Seq::<SpecJson>::empty());
    while i < content_blocks.len()
        invariant
            i <= content_blocks.len(),
            blocks == Seq::new(content_blocks.len() as nat, |i: int| content_blocks@[i]@),
            spec_decode_content_blocks(blocks.take(i as int), empty_acc) == Ok::<DecodeAcc, Seq<char>>(
                acc_of(content@, text_blocks@, warnings@),
            ),
        decreases content_blocks.len() - i,
    {
        assert(blocks.take(i + 1).drop_last() =~= blocks.take(i as int));
        assert(blocks.take(i + 1).last() == content_blocks@[i as int]@);
        match decode_content_block(&content_blocks[i], &mut content, &mut text_blocks, &mut warnings) {
            Ok(()) => {},
            Err(e) => {
                proof {
                    lemma_decode_blocks_error_sticks(blocks, i as int + 1, empty_acc);
                }
                return Err(e);
            },
        }
        i = i + 1;
    }
    assert(blocks.take(content_blocks.len() as int) =~= blocks);
    if content.len() == 0 {
        push_warning(&mut warnings, "anthropic.decode.empty_output", "anthropic response produced no decodable content parts");
    }
    let structured_output = decode_structured_output(&payload.requested_response_format, &text_blocks, &mut warnings);
    let usage = match decode_usage(body.get("usage"), &mut warnings) {
        Ok(u) => u,
        Err(e) => {
            return Err(e);
        },
    };
    let finish_reason = map_finish_reason(stop_reason, &mut warnings);
    Ok(
        Response {
            output: AssistantOutput { content, structured_output },
            usage,
            model,
            raw_provider_response: None,
            finish_reason,
            warnings,
        },
    )
}

/// Once a prefix of the blocks fails to decode, the whole list fails with the same message.
pub proof fn lemma_decode_blocks_error_sticks(blocks: Seq<SpecJson>, n: int, acc: DecodeAcc)
    requires
        0 <= n <= blocks.len(),
        spec_decode_content_blocks(blocks.take(n), acc) is Err,
    ensures
        spec_decode_content_blocks(blocks, acc) == spec_decode_content_blocks(blocks.take(n), acc),
    decreases blocks.len() - n,
{
    if n < blocks.len() {
        assert(blocks.take(n + 1).drop_last() =~= blocks.take(n));
        lemma_decode_blocks_error_sticks(blocks, n + 1, acc);
    } else {
        assert(blocks.take(n) =~= blocks);
    }
}

} // verus!
