use agent_toolkit::json::{JsonNumber, JsonValue};
use agent_toolkit::providers::openai::types::{
    OpenAiMessageContentPart, OpenAiResponseUsage, OpenAiTextFormat, OpenAiTextFormatType,
    OpenAiUsageTokenDetails, StructuredOutputFormat,
};
use agent_toolkit::Usage;

fn to_jv(value: serde_json::Value) -> JsonValue {
    match value {
        serde_json::Value::Null => JsonValue::Null,
        serde_json::Value::Bool(b) => JsonValue::Bool(b),
        serde_json::Value::Number(n) => {
            if let Some(u) = n.as_u64() {
                JsonValue::Number(JsonNumber::PosInt(u))
            } else if let Some(i) = n.as_i64() {
                JsonValue::Number(JsonNumber::NegInt(i))
            } else {
                JsonValue::Number(JsonNumber::Float(n.to_string()))
            }
        }
        serde_json::Value::String(s) => JsonValue::String(s),
        serde_json::Value::Array(items) => JsonValue::Array(items.into_iter().map(to_jv).collect()),
        serde_json::Value::Object(map) => {
            JsonValue::Object(map.into_iter().map(|(k, v)| (k, to_jv(v))).collect())
        }
    }
}

fn jv(text: &str) -> JsonValue {
    to_jv(serde_json::from_str(text).expect("test JSON must parse"))
}

fn format_with(schema: Option<JsonValue>) -> StructuredOutputFormat {
    StructuredOutputFormat {
        name: "shape".to_string(),
        description: Some("d".to_string()),
        schema,
        strict: Some(true),
    }
}

#[test]
fn structured_output_schema_defaults_to_closed_objects() {
    let closed = format_with(Some(jv(r#"{"type":"object","properties":{}}"#)))
        .with_default_additional_properties_false();
    assert_eq!(
        closed.schema,
        Some(jv(r#"{"type":"object","properties":{},"additionalProperties":false}"#))
    );
    assert_eq!(closed.name, "shape");
    assert_eq!(closed.description.as_deref(), Some("d"));
    assert_eq!(closed.strict, Some(true));
}

#[test]
fn structured_output_schema_keeps_explicit_additional_properties() {
    let open = format_with(Some(jv(r#"{"type":"object","additionalProperties":true}"#)))
        .with_default_additional_properties_false();
    assert_eq!(open.schema, Some(jv(r#"{"type":"object","additionalProperties":true}"#)));

    let absent = format_with(None).with_default_additional_properties_false();
    assert_eq!(absent.schema, None);

    let null_schema = format_with(Some(JsonValue::Null)).with_default_additional_properties_false();
    assert_eq!(null_schema.schema, Some(jv(r#"{"additionalProperties":false}"#)));
}

#[test]
fn text_format_constructors_set_the_discriminator() {
    let text = OpenAiTextFormat::text();
    assert_eq!(text.format_type, OpenAiTextFormatType::Text);
    assert_eq!(text.name, None);
    assert_eq!(OpenAiTextFormat::default(), OpenAiTextFormat::text());

    let object = OpenAiTextFormat::json_object();
    assert_eq!(object.format_type, OpenAiTextFormatType::JsonObject);
    assert_eq!(object.schema, None);

    let schema = OpenAiTextFormat::json_schema(format_with(Some(jv(r#"{"type":"object"}"#))));
    assert_eq!(schema.format_type, OpenAiTextFormatType::JsonSchema);
    assert_eq!(schema.name.as_deref(), Some("shape"));
    assert_eq!(schema.strict, Some(true));
    assert_eq!(schema.schema, Some(jv(r#"{"type":"object","additionalProperties":false}"#)));
}

#[test]
fn openai_usage_maps_cached_tokens_from_details() {
    let usage = Usage::from(OpenAiResponseUsage {
        input_tokens: Some(10),
        output_tokens: Some(4),
        total_tokens: Some(14),
        input_tokens_details: Some(OpenAiUsageTokenDetails { cached_tokens: Some(3) }),
    });
    assert_eq!(
        usage,
        Usage {
            input_tokens: Some(10),
            output_tokens: Some(4),
            cached_input_tokens: Some(3),
            total_tokens: Some(14),
        }
    );
    assert_eq!(Usage::from(OpenAiResponseUsage::default()), Usage::default());
}

#[test]
fn message_content_parts_expose_text_and_refusals() {
    let text = OpenAiMessageContentPart::OutputText { text: Some("hi".to_string()) };
    assert_eq!(text.output_text(), Some("hi"));
    assert_eq!(text.refusal_text(), None);

    let refusal = OpenAiMessageContentPart::Refusal {
        text: Some("   ".to_string()),
        refusal: Some("cannot help".to_string()),
    };
    assert_eq!(refusal.refusal_text(), Some("cannot help"));
    assert_eq!(refusal.output_text(), None);

    let preferred = OpenAiMessageContentPart::Refusal {
        text: Some("no".to_string()),
        refusal: Some("other".to_string()),
    };
    assert_eq!(preferred.refusal_text(), Some("no"));

    let blank = OpenAiMessageContentPart::Refusal { text: None, refusal: Some(" ".to_string()) };
    assert_eq!(blank.refusal_text(), None);
    assert_eq!(OpenAiMessageContentPart::Reasoning.output_text(), None);
}
