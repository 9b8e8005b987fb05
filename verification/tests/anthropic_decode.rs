use agent_toolkit::providers::anthropic::decode::{first_parsed_object, object_output_from_fallback, schema_output_from_parse};
use agent_toolkit::providers::anthropic::decode::decode_usage;
use agent_toolkit::types::RuntimeWarning;
use agent_toolkit::json::{JsonNumber, JsonValue};
use agent_toolkit::providers::anthropic::decode::{
    decode_anthropic_response, format_anthropic_error_message, parse_anthropic_error_value,
};
use agent_toolkit::providers::anthropic::encode::encode_anthropic_request;
use agent_toolkit::providers::anthropic::{
    AnthropicDecodeEnvelope, AnthropicFamilyError, AnthropicFamilyErrorKind, AnthropicSpecError,
    AnthropicSpecErrorKind,
};
use agent_toolkit::types::Usage;
use agent_toolkit::{ContentPart, FinishReason, Message, Request, ResponseFormat, Response, ToolChoice};

fn to_jv(value: serde_json::Value) -> JsonValue {
    match value {
        serde_json::Value::Null => JsonValue::Null,
        serde_json::Value::Bool(b) => JsonValue::Bool(b),
        serde_json::Value::Number(n) => {
            if let Some(u) = n.as_u64() {
                JsonValue::Number(JsonNumber::PosInt(u))
            } else if let Some(i) = n.as_i64() {
                JsonValue::Number(JsonNumber::NegInt(i))
            } else {
                JsonValue::Number(JsonNumber::Float(n.to_string()))
            }
        }
        serde_json::Value::String(s) => JsonValue::String(s),
        serde_json::Value::Array(items) => JsonValue::Array(items.into_iter().map(to_jv).collect()),
        serde_json::Value::Object(map) => {
            JsonValue::Object(map.into_iter().map(|(k, v)| (k, to_jv(v))).collect())
        }
    }
}

fn jv(text: &str) -> JsonValue {
    to_jv(serde_json::from_str(text).expect("test JSON must parse"))
}

fn envelope(body: &str, requested_response_format: ResponseFormat) -> AnthropicDecodeEnvelope {
    AnthropicDecodeEnvelope { body: jv(body), requested_response_format }
}

fn shape_schema() -> ResponseFormat {
    ResponseFormat::JsonSchema { name: "shape".to_string(), schema: jv(r#"{"type":"object"}"#) }
}

fn has_warning(response: &Response, code: &str) -> bool {
    response.warnings.iter().any(|warning| warning.code == code)
}

fn base_request(messages: Vec<Message>) -> Request {
    Request {
        model_id: "sonnet-4.6".to_string(),
        stream: false,
        messages,
        tools: Vec::new(),
        tool_choice: ToolChoice::Auto,
        response_format: ResponseFormat::Text,
        temperature: None,
        top_p: None,
        max_output_tokens: None,
        stop: Vec::new(),
        metadata: Vec::new(),
    }
}

fn check_decode_basic_text_usage_and_stop_reason() {
    let payload = envelope(
        r#"{
            "role": "assistant",
            "model": "sonnet-4.6",
            "stop_reason": "end_turn",
            "content": [{"type":"text","text":"hello"}],
            "usage": {
                "input_tokens": 10,
                "cache_creation_input_tokens": 2,
                "cache_read_input_tokens": 3,
                "output_tokens": 7
            }
        }"#,
        ResponseFormat::Text,
    );

    let response = decode_anthropic_response(&payload).expect("decode should succeed");
    assert_eq!(response.model, "sonnet-4.6");
    assert_eq!(response.finish_reason, FinishReason::Stop);
    assert_eq!(response.usage.input_tokens, Some(15));
    assert_eq!(response.usage.cached_input_tokens, Some(3));
    assert_eq!(response.usage.output_tokens, Some(7));
    assert_eq!(response.usage.total_tokens, Some(22));
}

fn check_decode_tool_use_mapping() {
    let payload = envelope(
        r#"{
            "role": "assistant",
            "model": "sonnet-4.6",
            "stop_reason": "tool_use",
            "content": [{
                "type":"tool_use",
                "id":"call_1",
                "name":"calculator",
                "input":{"expression":"2+2"}
            }],
            "usage": {
                "input_tokens": 1,
                "output_tokens": 1
            }
        }"#,
        ResponseFormat::Text,
    );

    let response = decode_anthropic_response(&payload).expect("decode should succeed");
    assert_eq!(response.finish_reason, FinishReason::ToolCalls);
    assert_eq!(response.output.content.len(), 1);
    assert!(matches!(&response.output.content[0], ContentPart::ToolCall { .. }));
    if let ContentPart::ToolCall { tool_call } = &response.output.content[0] {
        assert_eq!(tool_call.id, "call_1");
        assert_eq!(tool_call.name, "calculator");
        assert_eq!(tool_call.arguments_json, jv(r#"{"expression":"2+2"}"#));
    }
}

fn check_decode_structured_output_for_json_object_and_json_schema() {
    let json_object_payload = envelope(
        r#"{
            "role": "assistant",
            "model": "sonnet-4.6",
            "stop_reason": "end_turn",
            "content": [
                {"type":"text","text":"not-json"},
                {"type":"text","text":"{\"ok\":true}"}
            ],
            "usage": {"input_tokens": 1, "output_tokens": 1}
        }"#,
        ResponseFormat::JsonObject,
    );

    let json_object_response =
        decode_anthropic_response(&json_object_payload).expect("decode should succeed");
    assert_eq!(json_object_response.output.structured_output, Some(jv(r#"{"ok":true}"#)));

    let json_schema_payload = envelope(
        r#"{
            "role": "assistant",
            "model": "sonnet-4.6",
            "stop_reason": "end_turn",
            "content": [
                {"type":"text","text":"{\"value\":123}"},
                {"type":"text","text":"{\"ignored\":true}"}
            ],
            "usage": {"input_tokens": 1, "output_tokens": 1}
        }"#,
        shape_schema(),
    );

    let json_schema_response =
        decode_anthropic_response(&json_schema_payload).expect("decode should succeed");
    assert_eq!(json_schema_response.output.structured_output, Some(jv(r#"{"value":123}"#)));
}

fn check_decode_rejects_malformed_payload() {
    let payload = envelope(r#"["not-an-object"]"#, ResponseFormat::Text);

    let error = decode_anthropic_response(&payload).expect_err("decode should fail");
    assert_eq!(error.kind(), AnthropicFamilyErrorKind::Decode);
    assert!(error.message().contains("JSON object"));
}

fn check_decode_rejects_missing_required_fields() {
    let payload = envelope(
        r#"{
            "role": "assistant",
            "model": "sonnet-4.6",
            "content": []
        }"#,
        ResponseFormat::Text,
    );

    let error = decode_anthropic_response(&payload).expect_err("decode should fail");
    assert_eq!(error.kind(), AnthropicFamilyErrorKind::Decode);
    assert!(error.message().contains("missing stop_reason"));
}

fn check_decode_rejects_non_object_tool_use_input() {
    let payload = envelope(
        r#"{
            "role": "assistant",
            "model": "sonnet-4.6",
            "stop_reason": "tool_use",
            "content": [{
                "type":"tool_use",
                "id":"call_1",
                "name":"calculator",
                "input":"not-object"
            }],
            "usage": {"input_tokens": 1, "output_tokens": 1}
        }"#,
        ResponseFormat::Text,
    );

    let error = decode_anthropic_response(&payload).expect_err("decode should fail");
    assert_eq!(error.kind(), AnthropicFamilyErrorKind::Decode);
    assert!(error.message().contains("must be a JSON object"));
}

fn check_decode_unknown_content_block_warns_and_maps_to_text() {
    let payload = envelope(
        r#"{
            "role": "assistant",
            "model": "sonnet-4.6",
            "stop_reason": "end_turn",
            "content": [{
                "type":"future_block",
                "z": 1,
                "a": {"k":"v"}
            }],
            "usage": {"input_tokens": 1, "output_tokens": 1}
        }"#,
        ResponseFormat::Text,
    );

    let response = decode_anthropic_response(&payload).expect("decode should succeed");
    assert_eq!(response.output.content.len(), 1);
    assert!(matches!(&response.output.content[0], ContentPart::Text { .. }));
    if let ContentPart::Text { text } = &response.output.content[0] {
        assert_eq!(text, r#"{"a":{"k":"v"},"type":"future_block","z":1}"#);
    }
    assert!(has_warning(&response, "anthropic.decode.unknown_content_block_mapped_to_text"));
}

fn check_decode_thinking_block_warns_and_skips_block() {
    let payload = envelope(
        r#"{
            "role": "assistant",
            "model": "sonnet-4.6",
            "stop_reason": "end_turn",
            "content": [{"type":"thinking","text":"hidden"}],
            "usage": {"input_tokens": 1, "output_tokens": 1}
        }"#,
        ResponseFormat::Text,
    );

    let response = decode_anthropic_response(&payload).expect("decode should succeed");
    assert!(response.output.content.is_empty());
    assert!(has_warning(&response, "anthropic.decode.unrepresentable_thinking_skipped"));
}

#[test]
fn decode_redacted_thinking_block_warns_and_skips_block() {
    let payload = envelope(
        r#"{
            "role": "assistant",
            "model": "sonnet-4.6",
            "stop_reason": "end_turn",
            "content": [{"type":"redacted_thinking","data":"hidden"}],
            "usage": {"input_tokens": 1, "output_tokens": 1}
        }"#,
        ResponseFormat::Text,
    );

    let response = decode_anthropic_response(&payload).expect("decode should succeed");
    assert!(response.output.content.is_empty());
    assert!(has_warning(&response, "anthropic.decode.unrepresentable_thinking_skipped"));
}

fn check_decode_json_object_extracts_from_combined_text_fallback() {
    let payload = envelope(
        r#"{
            "role": "assistant",
            "model": "sonnet-4.6",
            "stop_reason": "end_turn",
            "content": [
                {"type":"text","text":"lead-in"},
                {"type":"text","text":"prefix {\"ok\":true,\"nested\":{\"value\":1}} suffix"}
            ],
            "usage": {"input_tokens": 1, "output_tokens": 1}
        }"#,
        ResponseFormat::JsonObject,
    );

    let response = decode_anthropic_response(&payload).expect("decode should succeed");
    assert_eq!(
        response.output.structured_output,
        Some(jv(r#"{"ok":true,"nested":{"value":1}}"#))
    );
}

fn check_decode_rejects_non_object_usage() {
    let payload = envelope(
        r#"{
            "role": "assistant",
            "model": "sonnet-4.6",
            "stop_reason": "end_turn",
            "content": [{"type":"text","text":"ok"}],
            "usage": "invalid"
        }"#,
        ResponseFormat::Text,
    );

    let error = decode_anthropic_response(&payload).expect_err("decode should fail");
    assert_eq!(error.kind(), AnthropicFamilyErrorKind::Decode);
    assert!(error.message().contains("usage must be a JSON object"));
}

fn check_decode_rejects_non_numeric_usage_field() {
    let payload = envelope(
        r#"{
            "role": "assistant",
            "model": "sonnet-4.6",
            "stop_reason": "end_turn",
            "content": [{"type":"text","text":"ok"}],
            "usage": {
                "input_tokens": "five",
                "output_tokens": 1
            }
        }"#,
        ResponseFormat::Text,
    );

    let error = decode_anthropic_response(&payload).expect_err("decode should fail");
    assert_eq!(error.kind(), AnthropicFamilyErrorKind::Decode);
    assert!(error.message().contains("must be numeric"));
}

fn check_decode_rejects_signed_usage_field() {
    let payload = envelope(
        r#"{
            "role": "assistant",
            "model": "sonnet-4.6",
            "stop_reason": "end_turn",
            "content": [{"type":"text","text":"ok"}],
            "usage": {
                "input_tokens": -1,
                "output_tokens": 1
            }
        }"#,
        ResponseFormat::Text,
    );

    let error = decode_anthropic_response(&payload).expect_err("decode should fail");
    assert_eq!(error.kind(), AnthropicFamilyErrorKind::Decode);
    assert!(error.message().contains("must be an unsigned integer"));
}

fn check_decode_maps_known_stop_reasons() {
    let cases = vec![
        ("stop_sequence", FinishReason::Stop),
        ("max_tokens", FinishReason::Length),
        ("refusal", FinishReason::ContentFilter),
        ("pause_turn", FinishReason::Other),
    ];

    for (stop_reason, expected) in cases {
        let body = format!(
            r#"{{
                "role": "assistant",
                "model": "sonnet-4.6",
                "stop_reason": "{stop_reason}",
                "content": [{{"type":"text","text":"ok"}}],
                "usage": {{"input_tokens": 1, "output_tokens": 1}}
            }}"#
        );
        let payload = envelope(&body, ResponseFormat::Text);

        let response = decode_anthropic_response(&payload).expect("decode should succeed");
        assert_eq!(response.finish_reason, expected);
        if stop_reason != "pause_turn" {
            assert!(!has_warning(&response, "anthropic.decode.unknown_stop_reason"));
        }
    }
}

fn check_decode_unknown_stop_reason_warns_and_maps_to_other() {
    let payload = envelope(
        r#"{
            "role": "assistant",
            "model": "sonnet-4.6",
            "stop_reason": "future_reason",
            "content": [{"type":"text","text":"hello"}],
            "usage": {"input_tokens": 1, "output_tokens": 1}
        }"#,
        ResponseFormat::Text,
    );

    let response = decode_anthropic_response(&payload).expect("decode should succeed");
    assert_eq!(response.finish_reason, FinishReason::Other);
    assert!(has_warning(&response, "anthropic.decode.unknown_stop_reason"));
}

fn check_decode_missing_and_partial_usage_warns() {
    let missing_usage_payload = envelope(
        r#"{
            "role": "assistant",
            "model": "sonnet-4.6",
            "stop_reason": "end_turn",
            "content": [{"type":"text","text":"ok"}]
        }"#,
        ResponseFormat::Text,
    );
    let missing_usage =
        decode_anthropic_response(&missing_usage_payload).expect("decode should succeed");
    assert_eq!(missing_usage.usage, Usage::default());
    assert!(has_warning(&missing_usage, "anthropic.decode.usage_missing"));

    let partial_usage_payload = envelope(
        r#"{
            "role": "assistant",
            "model": "sonnet-4.6",
            "stop_reason": "end_turn",
            "content": [{"type":"text","text":"ok"}],
            "usage": {"input_tokens": 4}
        }"#,
        ResponseFormat::Text,
    );
    let partial_usage =
        decode_anthropic_response(&partial_usage_payload).expect("decode should succeed");
    assert_eq!(partial_usage.usage.input_tokens, Some(4));
    assert_eq!(partial_usage.usage.output_tokens, None);
    assert!(has_warning(&partial_usage, "anthropic.decode.usage_partial"));
}

fn check_decode_usage_billed_input_overflow_warns_and_drops_aggregate() {
    let body = format!(
        r#"{{
            "role": "assistant",
            "model": "sonnet-4.6",
            "stop_reason": "end_turn",
            "content": [{{"type":"text","text":"ok"}}],
            "usage": {{
                "input_tokens": {max},
                "cache_creation_input_tokens": 1,
                "output_tokens": 1
            }}
        }}"#,
        max = u64::MAX
    );
    let payload = envelope(&body, ResponseFormat::Text);

    let response = decode_anthropic_response(&payload).expect("decode should succeed");
    assert_eq!(response.usage.input_tokens, None);
    assert_eq!(response.usage.output_tokens, Some(1));
    assert_eq!(response.usage.total_tokens, None);
    assert!(has_warning(&response, "anthropic.decode.usage_overflow"));
}

fn check_decode_usage_total_tokens_overflow_warns_and_drops_total() {
    let body = format!(
        r#"{{
            "role": "assistant",
            "model": "sonnet-4.6",
            "stop_reason": "end_turn",
            "content": [{{"type":"text","text":"ok"}}],
            "usage": {{
                "input_tokens": 5,
                "output_tokens": {max}
            }}
        }}"#,
        max = u64::MAX
    );
    let payload = envelope(&body, ResponseFormat::Text);

    let response = decode_anthropic_response(&payload).expect("decode should succeed");
    assert_eq!(response.usage.input_tokens, Some(5));
    assert_eq!(response.usage.output_tokens, Some(u64::MAX));
    assert_eq!(response.usage.total_tokens, None);
    assert!(has_warning(&response, "anthropic.decode.usage_overflow"));
}

fn check_decode_top_level_upstream_error_parsing_and_formatting() {
    let payload = envelope(
        r#"{
            "type": "error",
            "error": {
                "type": "invalid_request_error",
                "message": "messages: Input should be a valid list"
            },
            "request_id": "req_123"
        }"#,
        ResponseFormat::Text,
    );

    let error = decode_anthropic_response(&payload).expect_err("decode should fail");
    assert_eq!(error.kind(), AnthropicFamilyErrorKind::Upstream);
    assert!(error.message().contains("anthropic error:"));
    assert!(error.message().contains("type=invalid_request_error"));
    assert!(error.message().contains("request_id=req_123"));

    assert!(matches!(payload.body, JsonValue::Object(_)), "error payload should be object");
    let envelope = parse_anthropic_error_value(&payload.body).expect("expected parsed envelope");
    assert_eq!(envelope.message, "messages: Input should be a valid list");
    assert_eq!(
        format_anthropic_error_message(&envelope),
        "anthropic error: messages: Input should be a valid list [type=invalid_request_error, request_id=req_123]"
    );
}

fn check_decode_empty_output_warns() {
    let payload = envelope(
        r#"{
            "role": "assistant",
            "model": "sonnet-4.6",
            "stop_reason": "end_turn",
            "content": [],
            "usage": {"input_tokens": 1, "output_tokens": 1}
        }"#,
        ResponseFormat::Text,
    );

    let response = decode_anthropic_response(&payload).expect("decode should succeed");
    assert!(response.output.content.is_empty());
    assert!(has_warning(&response, "anthropic.decode.empty_output"));
}

fn check_decode_structured_output_parse_failure_warns() {
    let payload = envelope(
        r#"{
            "role": "assistant",
            "model": "sonnet-4.6",
            "stop_reason": "end_turn",
            "content": [{"type":"text","text":"{not-json"}],
            "usage": {"input_tokens": 1, "output_tokens": 1}
        }"#,
        shape_schema(),
    );

    let response = decode_anthropic_response(&payload).expect("decode should succeed");
    assert_eq!(response.output.structured_output, None);
    assert!(has_warning(&response, "anthropic.decode.structured_output_parse_failed"));
}

fn check_encode_and_decode_error_variant_smoke() {
    let request = base_request(vec![]);
    let encode_error = encode_anthropic_request(request).expect_err("encode should fail");
    assert!(matches!(
        encode_error,
        AnthropicFamilyError::Validation { .. } | AnthropicFamilyError::ProtocolViolation { .. }
    ));

    let payload = envelope(
        r#"{
            "role": "user",
            "content": [],
            "stop_reason": "end_turn"
        }"#,
        ResponseFormat::Text,
    );
    let decode_error = decode_anthropic_response(&payload).expect_err("decode should fail");
    assert_eq!(decode_error.kind(), AnthropicFamilyErrorKind::Decode);
}

#[test]
fn anthropic_decode_test_decode_basic_text_usage_and_stop_reason() {
    check_decode_basic_text_usage_and_stop_reason();
}
#[test]
fn test_decode_basic_text_usage_and_stop_reason() {
    check_decode_basic_text_usage_and_stop_reason();
}
#[test]
fn anthropic_decode_test_decode_tool_use_mapping() {
    check_decode_tool_use_mapping();
}
#[test]
fn test_decode_tool_use_mapping() {
    check_decode_tool_use_mapping();
}
#[test]
fn anthropic_decode_test_decode_structured_output_for_json_object_and_json_schema() {
    check_decode_structured_output_for_json_object_and_json_schema();
}
#[test]
fn test_decode_structured_output_for_json_object_and_json_schema() {
    check_decode_structured_output_for_json_object_and_json_schema();
}
#[test]
fn anthropic_decode_test_decode_rejects_malformed_payload() {
    check_decode_rejects_malformed_payload();
}
#[test]
fn test_decode_rejects_malformed_payload() {
    check_decode_rejects_malformed_payload();
}
#[test]
fn anthropic_decode_test_decode_rejects_missing_required_fields() {
    check_decode_rejects_missing_required_fields();
}
#[test]
fn test_decode_rejects_missing_required_fields() {
    check_decode_rejects_missing_required_fields();
}
#[test]
fn anthropic_decode_test_decode_rejects_non_object_tool_use_input() {
    check_decode_rejects_non_object_tool_use_input();
}
#[test]
fn test_decode_rejects_non_object_tool_use_input() {
    check_decode_rejects_non_object_tool_use_input();
}
#[test]
fn anthropic_decode_test_decode_unknown_content_block_warns_and_maps_to_text() {
    check_decode_unknown_content_block_warns_and_maps_to_text();
}
#[test]
fn test_decode_unknown_content_block_warns_and_maps_to_text() {
    check_decode_unknown_content_block_warns_and_maps_to_text();
}
#[test]
fn anthropic_decode_test_decode_thinking_block_warns_and_skips_block() {
    check_decode_thinking_block_warns_and_skips_block();
}
#[test]
fn test_decode_thinking_block_warns_and_skips_block() {
    check_decode_thinking_block_warns_and_skips_block();
}
#[test]
fn anthropic_decode_test_decode_json_object_extracts_from_combined_text_fallback() {
    check_decode_json_object_extracts_from_combined_text_fallback();
}
#[test]
fn test_decode_json_object_extracts_from_combined_text_fallback() {
    check_decode_json_object_extracts_from_combined_text_fallback();
}
#[test]
fn anthropic_decode_test_decode_rejects_non_object_usage() {
    check_decode_rejects_non_object_usage();
}
#[test]
fn test_decode_rejects_non_object_usage() {
    check_decode_rejects_non_object_usage();
}
#[test]
fn anthropic_decode_test_decode_rejects_non_numeric_usage_field() {
    check_decode_rejects_non_numeric_usage_field();
}
#[test]
fn test_decode_rejects_non_numeric_usage_field() {
    check_decode_rejects_non_numeric_usage_field();
}
#[test]
fn anthropic_decode_test_decode_rejects_signed_usage_field() {
    check_decode_rejects_signed_usage_field();
}
#[test]
fn test_decode_rejects_signed_usage_field() {
    check_decode_rejects_signed_usage_field();
}
#[test]
fn anthropic_decode_test_decode_maps_known_stop_reasons() {
    check_decode_maps_known_stop_reasons();
}
#[test]
fn test_decode_maps_known_stop_reasons() {
    check_decode_maps_known_stop_reasons();
}
#[test]
fn anthropic_decode_test_decode_unknown_stop_reason_warns_and_maps_to_other() {
    check_decode_unknown_stop_reason_warns_and_maps_to_other();
}
#[test]
fn test_decode_unknown_stop_reason_warns_and_maps_to_other() {
    check_decode_unknown_stop_reason_warns_and_maps_to_other();
}
#[test]
fn anthropic_decode_test_decode_missing_and_partial_usage_warns() {
    check_decode_missing_and_partial_usage_warns();
}
#[test]
fn test_decode_missing_and_partial_usage_warns() {
    check_decode_missing_and_partial_usage_warns();
}
#[test]
fn anthropic_decode_test_decode_usage_billed_input_overflow_warns_and_drops_aggregate() {
    check_decode_usage_billed_input_overflow_warns_and_drops_aggregate();
}
#[test]
fn test_decode_usage_billed_input_overflow_warns_and_drops_aggregate() {
    check_decode_usage_billed_input_overflow_warns_and_drops_aggregate();
}
#[test]
fn anthropic_decode_test_decode_usage_total_tokens_overflow_warns_and_drops_total() {
    check_decode_usage_total_tokens_overflow_warns_and_drops_total();
}
#[test]
fn test_decode_usage_total_tokens_overflow_warns_and_drops_total() {
    check_decode_usage_total_tokens_overflow_warns_and_drops_total();
}
#[test]
fn anthropic_decode_test_decode_top_level_upstream_error_parsing_and_formatting() {
    check_decode_top_level_upstream_error_parsing_and_formatting();
}
#[test]
fn test_decode_top_level_upstream_error_parsing_and_formatting() {
    check_decode_top_level_upstream_error_parsing_and_formatting();
}
#[test]
fn anthropic_decode_test_decode_empty_output_warns() {
    check_decode_empty_output_warns();
}
#[test]
fn test_decode_empty_output_warns() {
    check_decode_empty_output_warns();
}
#[test]
fn anthropic_decode_test_decode_structured_output_parse_failure_warns() {
    check_decode_structured_output_parse_failure_warns();
}
#[test]
fn test_decode_structured_output_parse_failure_warns() {
    check_decode_structured_output_parse_failure_warns();
}
#[test]
fn anthropic_decode_test_encode_and_decode_error_variant_smoke() {
    check_encode_and_decode_error_variant_smoke();
}
#[test]
fn test_encode_and_decode_error_variant_smoke() {
    check_encode_and_decode_error_variant_smoke();
}

#[test]
fn anthropic_family_error_constructors_set_kind_and_message() {
    let validation_error = AnthropicFamilyError::validation("bad validation");
    assert_eq!(validation_error.kind(), AnthropicFamilyErrorKind::Validation);
    assert_eq!(validation_error.message(), "bad validation");

    let protocol_error = AnthropicFamilyError::protocol_violation("bad protocol");
    assert_eq!(protocol_error.kind(), AnthropicFamilyErrorKind::ProtocolViolation);
    assert_eq!(protocol_error.message(), "bad protocol");

    let decode_error = AnthropicFamilyError::decode("bad decode");
    assert_eq!(decode_error.kind(), AnthropicFamilyErrorKind::Decode);
    assert_eq!(decode_error.message(), "bad decode");

    let upstream_error = AnthropicFamilyError::upstream("bad upstream");
    assert_eq!(upstream_error.kind(), AnthropicFamilyErrorKind::Upstream);
    assert_eq!(upstream_error.message(), "bad upstream");
}

#[test]
fn anthropic_family_error_encode_with_source_preserves_source_chain() {
    let encode_error = AnthropicFamilyError::encode_with_source(
        "failed to encode",
        std::io::Error::other("io").to_string(),
    );
    assert_eq!(encode_error.kind(), AnthropicFamilyErrorKind::Encode);
    assert_eq!(encode_error.message(), "failed to encode");

    let source = encode_error.source().expect("source should exist");
    assert!(source.contains("io"));
}

#[test]
fn anthropic_family_error_decode_variant_with_source_exposes_source() {
    let decode_error = AnthropicFamilyError::Decode {
        message: "failed to decode".to_string(),
        source: Some(std::io::Error::other("wire").to_string()),
    };
    assert_eq!(decode_error.kind(), AnthropicFamilyErrorKind::Decode);
    assert_eq!(decode_error.message(), "failed to decode");

    let source = decode_error.source().expect("source should exist");
    assert!(source.contains("wire"));
}

#[test]
fn anthropic_family_error_unsupported_feature_kind_and_message() {
    let error = AnthropicFamilyError::unsupported_feature("streaming tools");
    assert_eq!(error.kind(), AnthropicFamilyErrorKind::UnsupportedFeature);
    assert_eq!(error.message(), "streaming tools");
}

#[test]
fn anthropic_spec_error_constructors_set_kind_and_message() {
    let validation_error = AnthropicSpecError::validation("bad validation");
    assert_eq!(validation_error.kind(), AnthropicSpecErrorKind::Validation);
    assert_eq!(validation_error.message(), "bad validation");

    let protocol_error = AnthropicSpecError::protocol_violation("bad protocol");
    assert_eq!(protocol_error.kind(), AnthropicSpecErrorKind::ProtocolViolation);
    assert_eq!(protocol_error.message(), "bad protocol");

    let decode_error = AnthropicSpecError::decode("bad decode");
    assert_eq!(decode_error.kind(), AnthropicSpecErrorKind::Decode);
    assert_eq!(decode_error.message(), "bad decode");

    let upstream_error = AnthropicSpecError::upstream("bad upstream");
    assert_eq!(upstream_error.kind(), AnthropicSpecErrorKind::Upstream);
    assert_eq!(upstream_error.message(), "bad upstream");
}

#[test]
fn anthropic_spec_error_encode_with_source_preserves_source_chain() {
    let encode_error = AnthropicSpecError::encode_with_source(
        "failed to encode",
        std::io::Error::other("io").to_string(),
    );
    assert_eq!(encode_error.kind(), AnthropicSpecErrorKind::Encode);
    assert_eq!(encode_error.message(), "failed to encode");

    let source = encode_error.source().expect("source should exist");
    assert!(source.contains("io"));
}

#[test]
fn anthropic_spec_error_decode_variant_with_source_exposes_source() {
    let decode_error = AnthropicSpecError::Decode {
        message: "failed to decode".to_string(),
        source: Some(std::io::Error::other("wire").to_string()),
    };
    assert_eq!(decode_error.kind(), AnthropicSpecErrorKind::Decode);
    assert_eq!(decode_error.message(), "failed to decode");

    let source = decode_error.source().expect("source should exist");
    assert!(source.contains("wire"));
}

#[test]
fn anthropic_spec_error_unsupported_feature_kind_and_message() {
    let error = AnthropicSpecError::unsupported_feature("streaming tools");
    assert_eq!(error.kind(), AnthropicSpecErrorKind::UnsupportedFeature);
    assert_eq!(error.message(), "streaming tools");
}

#[test]
fn decode_keeps_raw_response_and_text_blocks_in_order() {
    let payload = envelope(
        r#"{
            "role": "assistant",
            "model": "m",
            "stop_reason": "end_turn",
            "content": [{"type":"text","text":"a"},{"type":"text","text":"b"}],
            "usage": {"input_tokens": 2, "output_tokens": 3}
        }"#,
        ResponseFormat::Text,
    );
    let response = decode_anthropic_response(&payload).expect("decode should succeed");
    assert_eq!(
        response.output.content,
        vec![ContentPart::text("a"), ContentPart::text("b")]
    );
    assert_eq!(response.output.structured_output, None);
    assert_eq!(response.raw_provider_response, None);
    assert_eq!(response.usage.total_tokens, Some(5));
    assert!(response.warnings.is_empty());
}

#[test]
fn parse_anthropic_error_value_requires_error_type_marker() {
    assert_eq!(parse_anthropic_error_value(&jv(r#"{"type":"message","error":{"message":"x"}}"#)), None);
    assert_eq!(parse_anthropic_error_value(&jv(r#"{"error":"x"}"#)), None);
    let envelope = parse_anthropic_error_value(&jv(r#"{"type":"error","error":{"message":"only"}}"#))
        .expect("envelope");
    assert_eq!(format_anthropic_error_message(&envelope), "anthropic error: only");
}

#[test]
fn structured_output_helpers_follow_the_parse_results() {
    let mut warnings = Vec::new();
    assert_eq!(schema_output_from_parse(Ok(jv("[1]")), &mut warnings), Some(jv("[1]")));
    assert!(warnings.is_empty());
    assert_eq!(schema_output_from_parse(Err("bad".to_string()), &mut warnings), None);
    assert_eq!(warnings.len(), 1);
    assert_eq!(warnings[0].code, "anthropic.decode.structured_output_parse_failed");
    assert_eq!(warnings[0].message, "failed to parse structured output JSON: bad");

    let parses = vec![Err("x".to_string()), Ok(jv("[1]")), Ok(jv(r#"{"a":1}"#)), Ok(jv(r#"{"b":2}"#))];
    assert_eq!(first_parsed_object(&parses), Some(jv(r#"{"a":1}"#)));
    assert_eq!(first_parsed_object(&vec![Ok(jv("3"))]), None);

    let mut warnings = Vec::new();
    assert_eq!(object_output_from_fallback(Some(Ok(jv(r#"{"c":3}"#))), &mut warnings), Some(jv(r#"{"c":3}"#)));
    assert!(warnings.is_empty());
    assert_eq!(object_output_from_fallback(Some(Ok(jv("[]"))), &mut warnings), None);
    assert_eq!(object_output_from_fallback(None, &mut warnings), None);
    assert_eq!(warnings.len(), 2);
}

#[test]
fn decode_usage_failure_leaves_warnings_untouched() {
    let mut warnings = vec![RuntimeWarning { code: "keep".to_string(), message: "m".to_string() }];
    let usage = jv(r#"{"input_tokens": -1}"#);
    assert!(decode_usage(Some(&usage), &mut warnings).is_err());
    assert_eq!(warnings, vec![RuntimeWarning { code: "keep".to_string(), message: "m".to_string() }]);
}
