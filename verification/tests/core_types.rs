use agent_toolkit::stream::raw::payload_from_parse;
use agent_toolkit::types::AnthropicThinkingBudget;
use agent_toolkit::types::{
    AnthropicFamilyOptions, FamilyOptions, OpenAiCompatibleOptions, OpenAiOptions, ProviderOptions,
};
use agent_toolkit::providers::anthropic::stream_projector::parse_typed_usage;
use agent_toolkit::json::{JsonNumber, JsonValue};
use agent_toolkit::stream::RawStreamTransport;
use agent_toolkit::types::ToolResultContent;
use agent_toolkit::{
    ContentPart, Message, MessageRole, ProviderFamilyId, ProviderId, ProviderInstanceId,
    ProviderKind, ProviderRawStreamEvent, RawStreamPayload, ToolCall, Usage,
};

fn to_jv(value: serde_json::Value) -> JsonValue {
    match value {
        serde_json::Value::Null => JsonValue::Null,
        serde_json::Value::Bool(b) => JsonValue::Bool(b),
        serde_json::Value::Number(n) => {
            if let Some(u) = n.as_u64() {
                JsonValue::Number(JsonNumber::PosInt(u))
            } else if let Some(i) = n.as_i64() {
                JsonValue::Number(JsonNumber::NegInt(i))
            } else {
                JsonValue::Number(JsonNumber::Float(n.to_string()))
            }
        }
        serde_json::Value::String(s) => JsonValue::String(s),
        serde_json::Value::Array(items) => JsonValue::Array(items.into_iter().map(to_jv).collect()),
        serde_json::Value::Object(map) => {
            JsonValue::Object(map.into_iter().map(|(k, v)| (k, to_jv(v))).collect())
        }
    }
}

fn jv(text: &str) -> JsonValue {
    to_jv(serde_json::from_str(text).expect("test JSON must parse"))
}

#[test]
fn root_reexports_core_types() {
    let provider = ProviderId::OpenAi;
    assert_eq!(provider, agent_toolkit::types::ProviderId::OpenAi);

    let message = Message::new(MessageRole::User, vec![ContentPart::text("hello")]);
    assert_eq!(message.role, MessageRole::User);
    assert_eq!(message.content.len(), 1);
}

#[test]
fn root_and_module_types_are_interchangeable() {
    let from_root: ProviderId = ProviderId::Anthropic;
    let from_module: agent_toolkit::types::ProviderId = from_root;
    assert_eq!(from_module, agent_toolkit::types::ProviderId::Anthropic);
}

#[test]
fn usage_derived_total_tokens_prefers_explicit_total() {
    let usage = Usage {
        input_tokens: Some(10),
        output_tokens: Some(20),
        cached_input_tokens: None,
        total_tokens: Some(7),
    };

    assert_eq!(usage.derived_total_tokens(), 7);
}

#[test]
fn usage_derived_total_tokens_defaults_missing_values_to_zero() {
    let usage = Usage {
        input_tokens: Some(10),
        output_tokens: None,
        cached_input_tokens: None,
        total_tokens: None,
    };

    assert_eq!(usage.derived_total_tokens(), 10);
    assert_eq!(Usage::default().derived_total_tokens(), 0);
}

#[test]
fn usage_derived_total_tokens_saturates_on_overflow() {
    let usage = Usage {
        input_tokens: Some(u64::MAX),
        output_tokens: Some(1),
        cached_input_tokens: None,
        total_tokens: None,
    };

    assert_eq!(usage.derived_total_tokens(), u64::MAX);
}

#[test]
fn usage_derived_total_tokens_sums_input_and_output() {
    let usage = Usage {
        input_tokens: Some(10),
        output_tokens: Some(20),
        cached_input_tokens: Some(5),
        total_tokens: None,
    };
    assert_eq!(usage.derived_total_tokens(), 30);
}

#[test]
fn provider_kind_and_instance_identity_are_distinct() {
    assert_eq!(ProviderKind::OpenAi, agent_toolkit::ProviderKind::OpenAi);
    assert_eq!(
        ProviderInstanceId::generic_openai_compatible_default().as_str(),
        "generic-openai-compatible-default"
    );
    assert_eq!(
        ProviderFamilyId::OpenAiCompatible,
        ProviderFamilyId::OpenAiCompatible
    );
}

#[test]
fn provider_instance_defaults_have_stable_names() {
    assert_eq!(ProviderInstanceId::openai_default().as_str(), "openai-default");
    assert_eq!(ProviderInstanceId::anthropic_default().as_str(), "anthropic-default");
    assert_eq!(ProviderInstanceId::openrouter_default().as_str(), "openrouter-default");
    assert_eq!(ProviderInstanceId::new("custom").to_display_string(), "custom");
    assert_eq!(
        ProviderInstanceId::from_string("owned".to_string()).as_str(),
        "owned"
    );
}

#[test]
fn from_sse_classifies_json_payloads() {
    let event = ProviderRawStreamEvent::from_sse(
        ProviderId::OpenAi,
        7,
        Some("response.created".to_string()),
        Some("evt_123".to_string()),
        Some(250),
        r#"{"type":"response.created"}"#,
    );

    assert_eq!(event.provider, ProviderId::OpenAi);
    assert_eq!(event.sequence, 7);
    assert_eq!(event.sse_event_name(), Some("response.created"));
    assert_eq!(event.json(), Some(&jv(r#"{"type": "response.created"}"#)));
    assert!(matches!(event.payload, RawStreamPayload::Json { .. }));
    assert_eq!(
        event.transport,
        RawStreamTransport::Sse {
            event: Some("response.created".to_string()),
            id: Some("evt_123".to_string()),
            retry: Some(250),
        }
    );
}

#[test]
fn from_sse_classifies_text_payloads() {
    let event = ProviderRawStreamEvent::from_sse(
        ProviderId::Anthropic,
        3,
        Some("message_delta".to_string()),
        None,
        None,
        "not-json",
    );

    assert!(matches!(
        event.payload,
        RawStreamPayload::Text { ref text } if text == "not-json"
    ));
    assert_eq!(event.json(), None);
}

#[test]
fn from_sse_classifies_done_payloads() {
    let event =
        ProviderRawStreamEvent::from_sse(ProviderId::OpenRouter, 1, None, None, None, "[DONE]");

    assert!(matches!(event.payload, RawStreamPayload::Done));
    assert_eq!(event.sse_event_name(), None);
}

#[test]
fn from_sse_classifies_empty_payloads() {
    let event = ProviderRawStreamEvent::from_sse(ProviderId::OpenRouter, 2, None, None, None, "");

    assert!(matches!(event.payload, RawStreamPayload::Empty));
}

#[test]
fn from_sse_comment_keeps_comment_text() {
    let event = ProviderRawStreamEvent::from_sse_comment(ProviderId::OpenRouter, 4, "keepalive");
    assert!(matches!(
        event.payload,
        RawStreamPayload::Comment { ref text } if text == "keepalive"
    ));
    assert_eq!(event.sequence, 4);
}

#[test]
fn message_user_text_constructor_sets_role_and_single_text_part() {
    let message = Message::user_text("hello");
    assert_eq!(message.role, MessageRole::User);
    assert_eq!(
        message.content,
        vec![ContentPart::Text {
            text: "hello".to_string()
        }]
    );
}

#[test]
fn message_system_and_assistant_text_constructors_work() {
    let system = Message::system_text("system rules");
    let assistant = Message::assistant_text("assistant reply");

    assert_eq!(system.role, MessageRole::System);
    assert_eq!(
        system.content,
        vec![ContentPart::Text {
            text: "system rules".to_string()
        }]
    );

    assert_eq!(assistant.role, MessageRole::Assistant);
    assert_eq!(
        assistant.content,
        vec![ContentPart::Text {
            text: "assistant reply".to_string()
        }]
    );
}

#[test]
fn content_part_tool_call_constructor_builds_expected_shape() {
    let part = ContentPart::tool_call("call_1", "search", jv(r#"{ "query": "rust" }"#));

    assert_eq!(
        part,
        ContentPart::ToolCall {
            tool_call: ToolCall {
                id: "call_1".to_string(),
                name: "search".to_string(),
                arguments_json: jv(r#"{ "query": "rust" }"#),
            }
        }
    );
}

#[test]
fn message_assistant_tool_call_constructor_builds_expected_shape() {
    let message = Message::assistant_tool_call("call_1", "search", jv(r#"{ "query": "rust" }"#));

    assert_eq!(message.role, MessageRole::Assistant);
    assert_eq!(
        message.content,
        vec![ContentPart::ToolCall {
            tool_call: ToolCall {
                id: "call_1".to_string(),
                name: "search".to_string(),
                arguments_json: jv(r#"{ "query": "rust" }"#),
            }
        }]
    );
}

#[test]
fn content_part_tool_result_json_and_text_default_raw_none() {
    let json_part = ContentPart::tool_result_json("call_1", jv(r#"{ "ok": true }"#));
    let text_part = ContentPart::tool_result_text("call_2", "done");

    assert!(matches!(
        json_part,
        ContentPart::ToolResult { ref tool_result }
            if tool_result.tool_call_id == "call_1"
                && tool_result.content == ToolResultContent::Json {
                    value: jv(r#"{ "ok": true }"#)
                }
                && tool_result.raw_provider_content.is_none()
    ));

    assert!(matches!(
        text_part,
        ContentPart::ToolResult { ref tool_result }
            if tool_result.tool_call_id == "call_2"
                && tool_result.content == ToolResultContent::Text {
                    text: "done".to_string()
                }
                && tool_result.raw_provider_content.is_none()
    ));
}

#[test]
fn tool_result_with_raw_variants_populate_raw_provider_content() {
    let raw_text = r#"{ "provider": "openai", "payload": { "x": 1 } }"#;
    let json_part =
        ContentPart::tool_result_json_with_raw("call_1", jv(r#"{ "ok": true }"#), jv(raw_text));
    let text_part = ContentPart::tool_result_text_with_raw("call_2", "done", jv(raw_text));

    assert!(matches!(
        json_part,
        ContentPart::ToolResult { ref tool_result }
            if tool_result.raw_provider_content == Some(jv(raw_text))
    ));
    assert!(matches!(
        text_part,
        ContentPart::ToolResult { ref tool_result }
            if tool_result.raw_provider_content == Some(jv(raw_text))
    ));
}

#[test]
fn message_tool_result_helpers_create_tool_role_messages() {
    let json_message = Message::tool_result_json("call_1", jv(r#"{ "temp_f": 72 }"#));
    let text_message = Message::tool_result_text("call_2", "sunny");

    assert_eq!(json_message.role, MessageRole::Tool);
    assert_eq!(text_message.role, MessageRole::Tool);
    assert_eq!(json_message.content.len(), 1);
    assert_eq!(text_message.content.len(), 1);
}

#[test]
fn message_tool_result_helpers_with_raw_create_tool_role_messages_and_preserve_raw() {
    let raw_text = r#"{ "provider": "openai", "payload": { "x": 1 } }"#;
    let json_message =
        Message::tool_result_json_with_raw("call_1", jv(r#"{ "temp_f": 72 }"#), jv(raw_text));
    let text_message = Message::tool_result_text_with_raw("call_2", "sunny", jv(raw_text));

    assert_eq!(json_message.role, MessageRole::Tool);
    assert_eq!(text_message.role, MessageRole::Tool);
    assert_eq!(json_message.content.len(), 1);
    assert_eq!(text_message.content.len(), 1);
    assert!(matches!(
        json_message.content[0],
        ContentPart::ToolResult { ref tool_result }
            if tool_result.tool_call_id == "call_1"
                && tool_result.content == ToolResultContent::Json {
                    value: jv(r#"{ "temp_f": 72 }"#)
                }
                && tool_result.raw_provider_content == Some(jv(raw_text))
    ));
    assert!(matches!(
        text_message.content[0],
        ContentPart::ToolResult { ref tool_result }
            if tool_result.tool_call_id == "call_2"
                && tool_result.content == ToolResultContent::Text {
                    text: "sunny".to_string()
                }
                && tool_result.raw_provider_content == Some(jv(raw_text))
    ));
}

#[test]
fn message_new_supports_multi_part_content() {
    let message = Message::new(
        MessageRole::Assistant,
        vec![
            ContentPart::text("first"),
            ContentPart::tool_call("call_1", "search", jv(r#"{ "query": "rust" }"#)),
        ],
    );

    assert_eq!(message.role, MessageRole::Assistant);
    assert_eq!(message.content.len(), 2);
    assert_eq!(
        message.content[0],
        ContentPart::Text {
            text: "first".to_string()
        }
    );
    assert!(matches!(message.content[1], ContentPart::ToolCall { .. }));
}

#[test]
fn from_sse_keeps_number_kinds_of_json_payloads() {
    let event = ProviderRawStreamEvent::from_sse(ProviderId::OpenAi, 1, None, None, None, "[5, -3, 1.5]");
    assert_eq!(
        event.json(),
        Some(&JsonValue::Array(vec![
            JsonValue::Number(JsonNumber::PosInt(5)),
            JsonValue::Number(JsonNumber::NegInt(-3)),
            JsonValue::Number(JsonNumber::Float("1.5".to_string())),
        ]))
    );
}

#[test]
fn anthropic_thinking_budget_rejects_zero() {
    assert!(AnthropicThinkingBudget::new(0).is_none());
    assert_eq!(AnthropicThinkingBudget::new(2048).map(|b| b.get()), Some(2048));
}

#[test]
fn option_layers_report_their_target() {
    assert_eq!(
        FamilyOptions::Anthropic(AnthropicFamilyOptions::default()).family_id(),
        ProviderFamilyId::Anthropic
    );
    assert_eq!(
        FamilyOptions::OpenAiCompatible(OpenAiCompatibleOptions::default()).family_id(),
        ProviderFamilyId::OpenAiCompatible
    );
    assert_eq!(
        ProviderOptions::OpenAi(OpenAiOptions::default()).provider_kind(),
        ProviderKind::OpenAi
    );
}

#[test]
fn typed_anthropic_usage_sums_cache_tokens() {
    assert_eq!(
        parse_typed_usage(&jv(
            r#"{"input_tokens":5,"output_tokens":2,"cache_read_input_tokens":3,"cache_creation_input_tokens":4}"#
        )),
        Some(Usage {
            input_tokens: Some(5),
            output_tokens: Some(2),
            cached_input_tokens: Some(7),
            total_tokens: None,
        })
    );
    assert_eq!(parse_typed_usage(&jv(r#"{"input_tokens":"x"}"#)), None);
}

#[test]
fn payload_from_parse_keeps_documents_and_falls_back_to_text() {
    assert_eq!(
        payload_from_parse("{}", Ok(JsonValue::Object(vec![]))),
        RawStreamPayload::Json { value: JsonValue::Object(vec![]) }
    );
    assert_eq!(
        payload_from_parse("oops", Err("expected value".to_string())),
        RawStreamPayload::Text { text: "oops".to_string() }
    );
}
