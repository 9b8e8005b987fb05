use agent_toolkit::json::{JsonNumber, JsonValue};
use agent_toolkit::providers::anthropic::encode::encode_anthropic_request;
use agent_toolkit::providers::anthropic::schema_rules::{
    canonicalize_json, extract_first_json_object, permissive_json_object_schema,
    stable_json_string,
};
use agent_toolkit::providers::anthropic::{AnthropicEncodedRequest, AnthropicFamilyErrorKind};
use agent_toolkit::types::SamplingValue;
use agent_toolkit::{
    ContentPart, Message, MessageRole, Request, ResponseFormat, ToolCall, ToolChoice,
    ToolDefinition, ToolResult, ToolResultContent,
};

fn to_jv(value: serde_json::Value) -> JsonValue {
    match value {
        serde_json::Value::Null => JsonValue::Null,
        serde_json::Value::Bool(b) => JsonValue::Bool(b),
        serde_json::Value::Number(n) => {
            if let Some(u) = n.as_u64() {
                JsonValue::Number(JsonNumber::PosInt(u))
            } else if let Some(i) = n.as_i64() {
                JsonValue::Number(JsonNumber::NegInt(i))
            } else {
                JsonValue::Number(JsonNumber::Float(n.to_string()))
            }
        }
        serde_json::Value::String(s) => JsonValue::String(s),
        serde_json::Value::Array(items) => JsonValue::Array(items.into_iter().map(to_jv).collect()),
        serde_json::Value::Object(map) => {
            JsonValue::Object(map.into_iter().map(|(k, v)| (k, to_jv(v))).collect())
        }
    }
}

fn jv(text: &str) -> JsonValue {
    to_jv(serde_json::from_str(text).expect("test JSON must parse"))
}

/// Follows a JSON pointer such as `/tools/0/name`.
fn ptr<'a>(value: &'a JsonValue, path: &str) -> Option<&'a JsonValue> {
    let mut current = value;
    for segment in path.split('/').skip(1) {
        current = match current {
            JsonValue::Object(_) => current.get(segment)?,
            JsonValue::Array(items) => items.get(segment.parse::<usize>().ok()?)?,
            _ => return None,
        };
    }
    Some(current)
}

fn at(value: &JsonValue, path: &str) -> JsonValue {
    ptr(value, path).map(|v| v.copy()).unwrap_or(JsonValue::Null)
}

fn text(s: &str) -> JsonValue {
    JsonValue::String(s.to_string())
}

fn sampling(x: f32) -> SamplingValue {
    SamplingValue {
        wire: JsonNumber::Float(f64::from(x).to_string()),
        in_unit_interval: (0.0..=1.0).contains(&x),
        text: x.to_string(),
    }
}

fn base_request(messages: Vec<Message>) -> Request {
    Request {
        model_id: "sonnet-4.6".to_string(),
        stream: false,
        messages,
        tools: Vec::new(),
        tool_choice: ToolChoice::Auto,
        response_format: ResponseFormat::Text,
        temperature: None,
        top_p: None,
        max_output_tokens: None,
        stop: Vec::new(),
        metadata: Vec::new(),
    }
}

fn user_hello() -> Request {
    base_request(vec![Message {
        role: MessageRole::User,
        content: vec![ContentPart::Text { text: "hello".to_string() }],
    }])
}

fn tool_call(id: &str, name: &str, arguments: &str) -> ContentPart {
    ContentPart::ToolCall {
        tool_call: ToolCall { id: id.to_string(), name: name.to_string(), arguments_json: jv(arguments) },
    }
}

fn text_result(tool_call_id: &str, text: &str) -> ContentPart {
    ContentPart::ToolResult {
        tool_result: ToolResult {
            tool_call_id: tool_call_id.to_string(),
            content: ToolResultContent::Text { text: text.to_string() },
            raw_provider_content: None,
        },
    }
}

fn has_warning(encoded: &AnthropicEncodedRequest, code: &str) -> bool {
    encoded.warnings.iter().any(|warning| warning.code == code)
}

fn calculator_tool() -> ToolDefinition {
    ToolDefinition {
        name: "calculator".to_string(),
        description: Some("compute expression".to_string()),
        parameters_schema: jv(r#"{
            "type": "object",
            "properties": {
                "expression": {"type": "string"}
            },
            "required": ["expression"]
        }"#),
    }
}

fn check_encode_basic_text_message() {
    let encoded = encode_anthropic_request(user_hello()).expect("encode should succeed");

    assert_eq!(at(&encoded.body, "/model"), text("sonnet-4.6"));
    assert_eq!(at(&encoded.body, "/max_tokens"), jv("1024"));
    assert_eq!(at(&encoded.body, "/messages/0/role"), text("user"));
    assert_eq!(at(&encoded.body, "/messages/0/content/0/type"), text("text"));
}

fn check_encode_system_prefix_mapping() {
    let request = base_request(vec![
        Message { role: MessageRole::System, content: vec![ContentPart::Text { text: "sys-a".to_string() }] },
        Message { role: MessageRole::System, content: vec![ContentPart::Text { text: "sys-b".to_string() }] },
        Message { role: MessageRole::User, content: vec![ContentPart::Text { text: "hello".to_string() }] },
    ]);

    let encoded = encode_anthropic_request(request).expect("encode should succeed");
    assert_eq!(at(&encoded.body, "/system/0/text"), text("sys-a"));
    assert_eq!(at(&encoded.body, "/system/1/text"), text("sys-b"));
    assert_eq!(at(&encoded.body, "/messages/0/role"), text("user"));
}

fn check_encode_tools_and_tool_choice_mappings() {
    let with_choice = |choice: ToolChoice| {
        let mut request = user_hello();
        request.tools = vec![calculator_tool()];
        request.tool_choice = choice;
        request
    };

    let encoded = encode_anthropic_request(with_choice(ToolChoice::Disabled)).expect("encode none");
    assert_eq!(ptr(&encoded.body, "/tool_choice/type"), Some(&text("none")));

    let encoded = encode_anthropic_request(with_choice(ToolChoice::Auto)).expect("encode auto");
    assert_eq!(ptr(&encoded.body, "/tool_choice/type"), Some(&text("auto")));

    let encoded = encode_anthropic_request(with_choice(ToolChoice::Required)).expect("encode required");
    assert_eq!(ptr(&encoded.body, "/tool_choice/type"), Some(&text("any")));

    let encoded = encode_anthropic_request(with_choice(ToolChoice::Specific { name: "calculator".to_string() }))
        .expect("encode specific");
    assert_eq!(ptr(&encoded.body, "/tool_choice/type"), Some(&text("tool")));
    assert_eq!(ptr(&encoded.body, "/tool_choice/disable_parallel_tool_use"), Some(&JsonValue::Bool(true)));
    assert_eq!(ptr(&encoded.body, "/tools/0/name"), Some(&text("calculator")));
    assert_eq!(ptr(&encoded.body, "/tools/0/input_schema/type"), Some(&text("object")));
    assert_eq!(ptr(&encoded.body, "/tools/0/description"), Some(&text("compute expression")));
}

#[test]
fn encode_maps_tool_definition_with_description_and_object_schema() {
    let mut request = base_request(vec![Message::user_text("hello")]);
    request.tools = vec![ToolDefinition {
        name: "lookup_weather".to_string(),
        description: Some("Look up forecast details".to_string()),
        parameters_schema: jv(r#"{
            "type": "object",
            "properties": {
                "city": { "type": "string" }
            },
            "required": ["city"]
        }"#),
    }];

    let encoded = encode_anthropic_request(request).expect("encode should succeed");

    assert_eq!(ptr(&encoded.body, "/tools/0/name"), Some(&text("lookup_weather")));
    assert_eq!(ptr(&encoded.body, "/tools/0/description"), Some(&text("Look up forecast details")));
    assert_eq!(ptr(&encoded.body, "/tools/0/input_schema/type"), Some(&text("object")));
}

fn check_encode_tool_call_and_tool_result_sequencing_success() {
    let request = base_request(vec![
        Message { role: MessageRole::User, content: vec![ContentPart::Text { text: "compute 2+2".to_string() }] },
        Message { role: MessageRole::Assistant, content: vec![tool_call("call_1", "calculator", r#"{"expression":"2+2"}"#)] },
        Message { role: MessageRole::Tool, content: vec![text_result("call_1", "4")] },
        Message { role: MessageRole::User, content: vec![ContentPart::Text { text: "thanks".to_string() }] },
    ]);

    let encoded = encode_anthropic_request(request).expect("encode should succeed");
    let messages = match ptr(&encoded.body, "/messages") {
        Some(JsonValue::Array(items)) => items,
        _ => panic!("messages should be an array"),
    };
    assert_eq!(at(&messages[1], "/role"), text("assistant"));
    assert_eq!(at(&messages[1], "/content/0/type"), text("tool_use"));
    assert_eq!(at(&messages[2], "/role"), text("user"));
    assert_eq!(at(&messages[2], "/content/0/type"), text("tool_result"));
}

fn check_encode_rejects_non_prefix_system_message() {
    let request = base_request(vec![
        Message { role: MessageRole::User, content: vec![ContentPart::Text { text: "hello".to_string() }] },
        Message { role: MessageRole::System, content: vec![ContentPart::Text { text: "late system".to_string() }] },
    ]);

    let error = encode_anthropic_request(request).expect_err("encode should fail");
    assert_eq!(error.kind(), AnthropicFamilyErrorKind::Validation);
    assert!(error.message().contains("contiguous prefix"));
}

fn check_encode_rejects_bad_tool_choice() {
    let mut request = user_hello();
    request.tool_choice = ToolChoice::Specific { name: "missing".to_string() };

    let error = encode_anthropic_request(request).expect_err("encode should fail");
    assert_eq!(error.kind(), AnthropicFamilyErrorKind::Validation);
    assert!(error.message().contains("requires at least one tool definition"));
}

fn check_encode_rejects_invalid_tool_schema_or_name() {
    let mut request = user_hello();
    request.tools = vec![ToolDefinition {
        name: "".to_string(),
        description: None,
        parameters_schema: jv(r#"{"type":"object"}"#),
    }];
    let empty_name_error = encode_anthropic_request(request).expect_err("encode should fail");
    assert_eq!(empty_name_error.kind(), AnthropicFamilyErrorKind::Validation);
    assert!(empty_name_error.message().contains("non-empty names"));

    let mut request = user_hello();
    request.tools = vec![ToolDefinition {
        name: "tool".to_string(),
        description: None,
        parameters_schema: jv(r#""not-object""#),
    }];
    let bad_schema_error = encode_anthropic_request(request).expect_err("encode should fail");
    assert_eq!(bad_schema_error.kind(), AnthropicFamilyErrorKind::Validation);
    assert!(bad_schema_error.message().contains("must be a JSON object"));
}

fn check_encode_rejects_temperature_out_of_range() {
    let mut request = user_hello();
    request.temperature = Some(sampling(1.1));

    let error = encode_anthropic_request(request).expect_err("encode should fail");
    assert_eq!(error.kind(), AnthropicFamilyErrorKind::Validation);
    assert!(error.message().contains("temperature must be in [0.0, 1.0]"));
}

fn check_encode_rejects_top_p_out_of_range() {
    let mut request = user_hello();
    request.top_p = Some(sampling(-0.1));

    let error = encode_anthropic_request(request).expect_err("encode should fail");
    assert_eq!(error.kind(), AnthropicFamilyErrorKind::Validation);
    assert!(error.message().contains("top_p must be in [0.0, 1.0]"));
}

fn check_encode_rejects_zero_max_output_tokens() {
    let mut request = user_hello();
    request.max_output_tokens = Some(0);

    let error = encode_anthropic_request(request).expect_err("encode should fail");
    assert_eq!(error.kind(), AnthropicFamilyErrorKind::Validation);
    assert!(error.message().contains("max_output_tokens must be at least 1"));
}

fn check_encode_rejects_empty_stop_sequence() {
    let mut request = user_hello();
    request.stop = vec!["".to_string()];

    let error = encode_anthropic_request(request).expect_err("encode should fail");
    assert_eq!(error.kind(), AnthropicFamilyErrorKind::Validation);
    assert!(error.message().contains("must not contain empty strings"));
}

fn check_encode_rejects_tool_result_before_tool_call() {
    let request = base_request(vec![
        Message { role: MessageRole::Tool, content: vec![text_result("call_missing", "done")] },
        Message { role: MessageRole::User, content: vec![ContentPart::Text { text: "hello".to_string() }] },
    ]);

    let error = encode_anthropic_request(request).expect_err("encode should fail");
    assert_eq!(error.kind(), AnthropicFamilyErrorKind::ProtocolViolation);
    assert!(error.message().contains("unknown tool_call_id"));
}

fn check_encode_rejects_empty_tool_call_id() {
    let request = base_request(vec![Message {
        role: MessageRole::Assistant,
        content: vec![tool_call("   ", "calculator", r#"{"expression":"2+2"}"#)],
    }]);

    let error = encode_anthropic_request(request).expect_err("encode should fail");
    assert_eq!(error.kind(), AnthropicFamilyErrorKind::Validation);
    assert!(error.message().contains("non-empty tool_call id"));
}

fn check_encode_rejects_empty_tool_call_name() {
    let request = base_request(vec![Message {
        role: MessageRole::Assistant,
        content: vec![tool_call("call_1", "  ", r#"{"expression":"2+2"}"#)],
    }]);

    let error = encode_anthropic_request(request).expect_err("encode should fail");
    assert_eq!(error.kind(), AnthropicFamilyErrorKind::Validation);
    assert!(error.message().contains("non-empty tool_call name"));
}

fn check_encode_rejects_empty_tool_result_tool_call_id() {
    let request = base_request(vec![
        Message { role: MessageRole::Assistant, content: vec![tool_call("call_1", "calculator", r#"{"expression":"2+2"}"#)] },
        Message { role: MessageRole::Tool, content: vec![text_result("  ", "4")] },
    ]);

    let error = encode_anthropic_request(request).expect_err("encode should fail");
    assert_eq!(error.kind(), AnthropicFamilyErrorKind::Validation);
    assert!(error.message().contains("non-empty tool_call_id"));
}

fn check_encode_rejects_duplicate_tool_call_ids() {
    let request = base_request(vec![Message {
        role: MessageRole::Assistant,
        content: vec![
            tool_call("call_1", "calculator", r#"{"expression":"2+2"}"#),
            tool_call("call_1", "calculator_v2", r#"{"expression":"5+5"}"#),
        ],
    }]);

    let error = encode_anthropic_request(request).expect_err("encode should fail");
    assert_eq!(error.kind(), AnthropicFamilyErrorKind::ProtocolViolation);
    assert!(error.message().contains("duplicate assistant tool_call id 'call_1'"));
}

fn check_encode_rejects_non_object_tool_call_arguments_json() {
    let request = base_request(vec![Message {
        role: MessageRole::Assistant,
        content: vec![tool_call("call_1", "calculator", r#""2+2""#)],
    }]);

    let error = encode_anthropic_request(request).expect_err("encode should fail");
    assert_eq!(error.kind(), AnthropicFamilyErrorKind::Validation);
    assert!(error.message().contains("arguments_json must be a JSON object"));
}

fn check_encode_rejects_non_text_tool_result_parts() {
    let request = base_request(vec![
        Message { role: MessageRole::Assistant, content: vec![tool_call("call_1", "calculator", r#"{"expression":"2+2"}"#)] },
        Message {
            role: MessageRole::Tool,
            content: vec![ContentPart::ToolResult {
                tool_result: ToolResult {
                    tool_call_id: "call_1".to_string(),
                    content: ToolResultContent::Parts { parts: vec![tool_call("nested", "bad", r#"{"x":1}"#)] },
                    raw_provider_content: None,
                },
            }],
        },
    ]);

    let error = encode_anthropic_request(request).expect_err("encode should fail");
    assert_eq!(error.kind(), AnthropicFamilyErrorKind::Validation);
    assert!(error.message().contains("must contain only text parts"));
}

fn check_encode_rejects_structured_output_with_assistant_prefill() {
    let mut request = base_request(vec![
        Message { role: MessageRole::User, content: vec![ContentPart::Text { text: "give me JSON".to_string() }] },
        Message { role: MessageRole::Assistant, content: vec![ContentPart::Text { text: "{".to_string() }] },
    ]);
    request.response_format = ResponseFormat::JsonObject;

    let error = encode_anthropic_request(request).expect_err("encode should fail");
    assert_eq!(error.kind(), AnthropicFamilyErrorKind::Validation);
    assert!(error.message().contains("assistant-prefill"));
}

fn check_encode_maps_json_schema_response_format_to_output_config() {
    let schema_text = r#"{
        "type": "object",
        "properties": {
            "ok": {"type": "boolean"}
        },
        "required": ["ok"]
    }"#;
    let mut request = base_request(vec![Message {
        role: MessageRole::User,
        content: vec![ContentPart::Text { text: "return json".to_string() }],
    }]);
    request.response_format = ResponseFormat::JsonSchema { name: "shape".to_string(), schema: jv(schema_text) };

    let encoded = encode_anthropic_request(request).expect("encode should succeed");
    assert_eq!(ptr(&encoded.body, "/output_config/format/type"), Some(&text("json_schema")));
    assert_eq!(ptr(&encoded.body, "/output_config/format/schema"), Some(&jv(schema_text)));
}

fn check_encode_emits_warning_when_temperature_and_top_p_set() {
    let mut request = user_hello();
    request.temperature = Some(sampling(0.3));
    request.top_p = Some(sampling(0.9));

    let encoded = encode_anthropic_request(request).expect("encode should succeed");
    assert!(has_warning(&encoded, "anthropic.encode.both_temperature_and_top_p_set"));
}

fn check_encode_emits_warning_when_default_max_tokens_applied() {
    let encoded = encode_anthropic_request(user_hello()).expect("encode should succeed");

    assert_eq!(at(&encoded.body, "/max_tokens"), jv("1024"));
    assert!(has_warning(&encoded, "anthropic.encode.default_max_tokens_applied"));
}

fn check_encode_emits_warning_when_dropping_unsupported_metadata_keys() {
    let mut request = user_hello();
    request.metadata = vec![
        ("trace_id".to_string(), "trace-123".to_string()),
        ("user_id".to_string(), "user-1".to_string()),
    ];

    let encoded = encode_anthropic_request(request).expect("encode should succeed");
    assert_eq!(at(&encoded.body, "/metadata"), jv(r#"{"user_id":"user-1"}"#));
    assert!(has_warning(&encoded, "anthropic.encode.dropped_unsupported_metadata_keys"));
}

#[test]
fn anthropic_encode_test_encode_basic_text_message() {
    check_encode_basic_text_message();
}

#[test]
fn test_encode_basic_text_message() {
    check_encode_basic_text_message();
}

#[test]
fn anthropic_encode_test_encode_system_prefix_mapping() {
    check_encode_system_prefix_mapping();
}

#[test]
fn test_encode_system_prefix_mapping() {
    check_encode_system_prefix_mapping();
}

#[test]
fn anthropic_encode_test_encode_tools_and_tool_choice_mappings() {
    check_encode_tools_and_tool_choice_mappings();
}

#[test]
fn test_encode_tools_and_tool_choice_mappings() {
    check_encode_tools_and_tool_choice_mappings();
}

#[test]
fn anthropic_encode_test_encode_tool_call_and_tool_result_sequencing_success() {
    check_encode_tool_call_and_tool_result_sequencing_success();
}

#[test]
fn test_encode_tool_call_and_tool_result_sequencing_success() {
    check_encode_tool_call_and_tool_result_sequencing_success();
}

#[test]
fn anthropic_encode_test_encode_rejects_non_prefix_system_message() {
    check_encode_rejects_non_prefix_system_message();
}

#[test]
fn test_encode_rejects_non_prefix_system_message() {
    check_encode_rejects_non_prefix_system_message();
}

#[test]
fn anthropic_encode_test_encode_rejects_bad_tool_choice() {
    check_encode_rejects_bad_tool_choice();
}

#[test]
fn test_encode_rejects_bad_tool_choice() {
    check_encode_rejects_bad_tool_choice();
}

#[test]
fn anthropic_encode_test_encode_rejects_invalid_tool_schema_or_name() {
    check_encode_rejects_invalid_tool_schema_or_name();
}

#[test]
fn test_encode_rejects_invalid_tool_schema_or_name() {
    check_encode_rejects_invalid_tool_schema_or_name();
}

#[test]
fn anthropic_encode_test_encode_rejects_temperature_out_of_range() {
    check_encode_rejects_temperature_out_of_range();
}

#[test]
fn test_encode_rejects_temperature_out_of_range() {
    check_encode_rejects_temperature_out_of_range();
}

#[test]
fn anthropic_encode_test_encode_rejects_top_p_out_of_range() {
    check_encode_rejects_top_p_out_of_range();
}

#[test]
fn test_encode_rejects_top_p_out_of_range() {
    check_encode_rejects_top_p_out_of_range();
}

#[test]
fn anthropic_encode_test_encode_rejects_zero_max_output_tokens() {
    check_encode_rejects_zero_max_output_tokens();
}

#[test]
fn test_encode_rejects_zero_max_output_tokens() {
    check_encode_rejects_zero_max_output_tokens();
}

#[test]
fn anthropic_encode_test_encode_rejects_empty_stop_sequence() {
    check_encode_rejects_empty_stop_sequence();
}

#[test]
fn test_encode_rejects_empty_stop_sequence() {
    check_encode_rejects_empty_stop_sequence();
}

#[test]
fn anthropic_encode_test_encode_rejects_tool_result_before_tool_call() {
    check_encode_rejects_tool_result_before_tool_call();
}

#[test]
fn test_encode_rejects_tool_result_before_tool_call() {
    check_encode_rejects_tool_result_before_tool_call();
}

#[test]
fn anthropic_encode_test_encode_rejects_empty_tool_call_id() {
    check_encode_rejects_empty_tool_call_id();
}

#[test]
fn test_encode_rejects_empty_tool_call_id() {
    check_encode_rejects_empty_tool_call_id();
}

#[test]
fn anthropic_encode_test_encode_rejects_empty_tool_call_name() {
    check_encode_rejects_empty_tool_call_name();
}

#[test]
fn test_encode_rejects_empty_tool_call_name() {
    check_encode_rejects_empty_tool_call_name();
}

#[test]
fn anthropic_encode_test_encode_rejects_empty_tool_result_tool_call_id() {
    check_encode_rejects_empty_tool_result_tool_call_id();
}

#[test]
fn test_encode_rejects_empty_tool_result_tool_call_id() {
    check_encode_rejects_empty_tool_result_tool_call_id();
}

#[test]
fn anthropic_encode_test_encode_rejects_duplicate_tool_call_ids() {
    check_encode_rejects_duplicate_tool_call_ids();
}

#[test]
fn test_encode_rejects_duplicate_tool_call_ids() {
    check_encode_rejects_duplicate_tool_call_ids();
}

#[test]
fn anthropic_encode_test_encode_rejects_non_object_tool_call_arguments_json() {
    check_encode_rejects_non_object_tool_call_arguments_json();
}

#[test]
fn test_encode_rejects_non_object_tool_call_arguments_json() {
    check_encode_rejects_non_object_tool_call_arguments_json();
}

#[test]
fn anthropic_encode_test_encode_rejects_non_text_tool_result_parts() {
    check_encode_rejects_non_text_tool_result_parts();
}

#[test]
fn test_encode_rejects_non_text_tool_result_parts() {
    check_encode_rejects_non_text_tool_result_parts();
}

#[test]
fn anthropic_encode_test_encode_rejects_structured_output_with_assistant_prefill() {
    check_encode_rejects_structured_output_with_assistant_prefill();
}

#[test]
fn test_encode_rejects_structured_output_with_assistant_prefill() {
    check_encode_rejects_structured_output_with_assistant_prefill();
}

#[test]
fn anthropic_encode_test_encode_maps_json_schema_response_format_to_output_config() {
    check_encode_maps_json_schema_response_format_to_output_config();
}

#[test]
fn test_encode_maps_json_schema_response_format_to_output_config() {
    check_encode_maps_json_schema_response_format_to_output_config();
}

#[test]
fn anthropic_encode_test_encode_emits_warning_when_temperature_and_top_p_set() {
    check_encode_emits_warning_when_temperature_and_top_p_set();
}

#[test]
fn test_encode_emits_warning_when_temperature_and_top_p_set() {
    check_encode_emits_warning_when_temperature_and_top_p_set();
}

#[test]
fn anthropic_encode_test_encode_emits_warning_when_default_max_tokens_applied() {
    check_encode_emits_warning_when_default_max_tokens_applied();
}

#[test]
fn test_encode_emits_warning_when_default_max_tokens_applied() {
    check_encode_emits_warning_when_default_max_tokens_applied();
}

#[test]
fn anthropic_encode_test_encode_emits_warning_when_dropping_unsupported_metadata_keys() {
    check_encode_emits_warning_when_dropping_unsupported_metadata_keys();
}

#[test]
fn test_encode_emits_warning_when_dropping_unsupported_metadata_keys() {
    check_encode_emits_warning_when_dropping_unsupported_metadata_keys();
}

#[test]
fn schema_rules_canonicalize_json_sorts_object_keys_recursively() {
    let input = JsonValue::Object(vec![
        ("z".to_string(), JsonValue::Object(vec![("b".to_string(), jv("2")), ("a".to_string(), jv("1"))])),
        (
            "a".to_string(),
            JsonValue::Array(vec![
                JsonValue::Object(vec![("d".to_string(), jv("4")), ("c".to_string(), jv("3"))]),
                jv("5"),
            ]),
        ),
    ]);

    let canonical = canonicalize_json(&input);
    let as_string = stable_json_string(&canonical);

    assert_eq!(as_string, r#"{"a":[{"c":3,"d":4},5],"z":{"a":1,"b":2}}"#);
}

fn check_extract_handles_escaped_quotes_and_nested_braces() {
    let text = r#"prefix {"outer":{"text":"value with \"quotes\" and { braces }","n":1}} suffix {"ignored":true}"#;

    let extracted = extract_first_json_object(text).expect("object should be extracted");
    assert_eq!(extracted, r#"{"outer":{"text":"value with \"quotes\" and { braces }","n":1}}"#);
}

fn check_extract_returns_none_for_incomplete_object() {
    let text = r#"prefix {"outer":{"text":"unterminated"}"#;
    assert_eq!(extract_first_json_object(text), None);
}

fn check_permissive_schema_shape() {
    assert_eq!(
        permissive_json_object_schema(),
        jv(r#"{
            "type": "object",
            "additionalProperties": true
        }"#)
    );
}

#[test]
fn anthropic_schema_rules_test_schema_rules_extract_first_json_object_handles_escaped_quotes_and_nested_braces() {
    check_extract_handles_escaped_quotes_and_nested_braces();
}

#[test]
fn test_schema_rules_extract_first_json_object_handles_escaped_quotes_and_nested_braces() {
    check_extract_handles_escaped_quotes_and_nested_braces();
}

#[test]
fn anthropic_schema_rules_test_schema_rules_extract_first_json_object_returns_none_for_incomplete_object() {
    check_extract_returns_none_for_incomplete_object();
}

#[test]
fn test_schema_rules_extract_first_json_object_returns_none_for_incomplete_object() {
    check_extract_returns_none_for_incomplete_object();
}

#[test]
fn anthropic_schema_rules_test_schema_rules_permissive_json_object_schema_shape_is_stable() {
    check_permissive_schema_shape();
}

#[test]
fn test_schema_rules_permissive_json_object_schema_shape_is_stable() {
    check_permissive_schema_shape();
}

#[test]
fn extract_first_json_object_skips_braces_before_the_object_and_handles_no_object() {
    assert_eq!(extract_first_json_object("no braces here"), None);
    assert_eq!(extract_first_json_object("a {} b"), Some("{}".to_string()));
    assert_eq!(
        extract_first_json_object(r#"x {"s":"}"} y"#),
        Some(r#"{"s":"}"}"#.to_string())
    );
}

#[test]
fn encode_merges_consecutive_user_turns_and_puts_tool_results_first() {
    let request = base_request(vec![
        Message { role: MessageRole::Assistant, content: vec![tool_call("call_1", "calculator", r#"{"e":1}"#)] },
        Message { role: MessageRole::User, content: vec![ContentPart::Text { text: "note".to_string() }] },
        Message { role: MessageRole::Tool, content: vec![text_result("call_1", "4")] },
    ]);
    let encoded = encode_anthropic_request(request).expect("encode should succeed");
    let messages = match ptr(&encoded.body, "/messages") {
        Some(JsonValue::Array(items)) => items,
        _ => panic!("messages should be an array"),
    };
    assert_eq!(messages.len(), 2);
    assert_eq!(at(&messages[1], "/role"), text("user"));
    assert_eq!(at(&messages[1], "/content/0/type"), text("tool_result"));
    assert_eq!(at(&messages[1], "/content/0/tool_use_id"), text("call_1"));
    assert_eq!(at(&messages[1], "/content/1/type"), text("text"));
    assert_eq!(at(&messages[1], "/content/1/text"), text("note"));
}

#[test]
fn encode_keeps_explicit_settings_and_stop_sequences() {
    let mut request = user_hello();
    request.max_output_tokens = Some(64);
    request.stop = vec!["END".to_string()];
    request.temperature = Some(sampling(0.5));
    let encoded = encode_anthropic_request(request).expect("encode should succeed");
    assert_eq!(at(&encoded.body, "/max_tokens"), jv("64"));
    assert_eq!(at(&encoded.body, "/stop_sequences/0"), text("END"));
    assert_eq!(at(&encoded.body, "/temperature"), JsonValue::Number(JsonNumber::Float("0.5".to_string())));
    assert!(!has_warning(&encoded, "anthropic.encode.default_max_tokens_applied"));
}

#[test]
fn canonicalize_json_is_idempotent() {
    let input = JsonValue::Object(vec![
        ("b".to_string(), JsonValue::Array(vec![JsonValue::Object(vec![
            ("y".to_string(), jv("1")),
            ("x".to_string(), jv("2")),
        ])])),
        ("a".to_string(), JsonValue::Null),
    ]);
    let once = canonicalize_json(&input);
    let twice = canonicalize_json(&once);
    assert_eq!(once, twice);
    assert_eq!(stable_json_string(&once), r#"{"a":null,"b":[{"x":2,"y":1}]}"#);
}
