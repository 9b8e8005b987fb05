//! OpenAI-family wire types shared by request encoding and response decoding.
use vstd::prelude::*;

use crate::json::{JsonValue, SpecJson};
use crate::providers::anthropic::schema_rules::insert_entry;
use crate::providers::error::opt_string_view;
use crate::text::{is_blank_str, owned, spec_trim};
use crate::types::response::Usage;
use crate::types::tool::opt_json_view;

verus! {

/// Structured output definition compatible with OpenAI-style JSON schema outputs.
#[derive(Debug, PartialEq)]
pub struct StructuredOutputFormat {
    /// Name of the schema.
    pub name: String,
    /// Human-readable schema description.
    pub description: Option<String>,
    /// The JSON schema of the output.
    pub schema: Option<JsonValue>,
    /// Whether strict schema adherence is requested.
    pub strict: Option<bool>,
}

/// The schema with `additionalProperties: false` added where it is not set:
/// members of an object are kept in key order, and `null` becomes an object.
pub open spec fn spec_close_schema(schema: SpecJson) -> SpecJson {
    match schema {
        SpecJson::Object(es) => if schema.get("additionalProperties"@) is Some {
            schema
        } else {
            SpecJson::Object(insert_entry(es, ("additionalProperties"@, SpecJson::Bool(false))))
        },
        SpecJson::Null => SpecJson::Object(seq![("additionalProperties"@, SpecJson::Bool(false))]),
        _ => schema,
    }
}

/// Whether a schema can take a member: an object, or `null` (which becomes one).
pub open spec fn schema_takes_members(schema: Option<JsonValue>) -> bool {
    match schema {
        Some(s) => s@ is Object || s@ is Null,
        None => true,
    }
}

impl StructuredOutputFormat {
    /// Sets `additionalProperties` to `false` in the schema when it is not
    /// present, so structured outputs default to closed objects.
    pub fn with_default_additional_properties_false(self) -> (r: Self)
        requires
            schema_takes_members(self.schema),
        ensures
            r.name == self.name,
            r.description == self.description,
            r.strict == self.strict,
            opt_json_view(r.schema) == match opt_json_view(self.schema) {
                Some(s) => Some(spec_close_schema(s)),
                None => None,
            },
    {
        let StructuredOutputFormat { name, description, schema, strict } = self;
        let schema = match schema {
            Some(s) => Some(close_schema(s)),
            None => None,
        };
        StructuredOutputFormat { name, description, schema, strict }
    }
}

/// Adds `additionalProperties: false` to an object or `null` schema that lacks it.
fn close_schema(schema: JsonValue) -> (r: JsonValue)
    requires
        schema@ is Object || schema@ is Null,
    ensures
        r@ == spec_close_schema(schema@),
{
    if schema.get("additionalProperties").is_some() {
        return schema;
    }
    match schema {
        JsonValue::Object(entries) => {
            let ghost es = JsonValue::Object(entries)@->Object_0;
            assert(entries@.map_values(|e: (String, JsonValue)| (e.0@, e.1@)) =~= es);
            let mut out = entries;
            crate::providers::anthropic::schema_rules::insert_member_sorted(
                &mut out,
                (owned("additionalProperties"), JsonValue::Bool(false)),
            );
            crate::json::object_of(out)
        },
        _ => {
            let mut out: Vec<(String, JsonValue)> = Vec::new();
            out.push((owned("additionalProperties"), JsonValue::Bool(false)));
            let r = crate::json::object_of(out);
            assert(r@->Object_0 =~= seq![("additionalProperties"@, SpecJson::Bool(false))]);
            r
        },
    }
}

/// Responses API text-format discriminator.
#[derive(Debug, Clone, Copy, PartialEq, Eq, Structural)]
pub enum OpenAiTextFormatType {
    /// Plain-text output.
    Text,
    /// JSON schema constrained output.
    JsonSchema,
    /// Arbitrary JSON object output.
    JsonObject,
}

/// Responses API `text.format` payload.
#[derive(Debug, PartialEq)]
pub struct OpenAiTextFormat {
    /// Output format discriminator (`type`).
    pub format_type: OpenAiTextFormatType,
    /// Schema name of `json_schema` outputs.
    pub name: Option<String>,
    /// JSON schema of `json_schema` outputs.
    pub schema: Option<JsonValue>,
    /// Strictness flag of `json_schema` outputs.
    pub strict: Option<bool>,
}

impl Default for OpenAiTextFormat {
    fn default() -> (r: Self)
        ensures
            r.format_type == OpenAiTextFormatType::Text,
            r.name is None,
            r.schema is None,
            r.strict is None,
    {
        Self::text()
    }
}

impl OpenAiTextFormat {
    /// The plain-text `text.format` payload.
    pub fn text() -> (r: Self)
        ensures
            r.format_type == OpenAiTextFormatType::Text,
            r.name is None,
            r.schema is None,
            r.strict is None,
    {
        OpenAiTextFormat { format_type: OpenAiTextFormatType::Text, name: None, schema: None, strict: None }
    }

    /// The JSON-object `text.format` payload.
    pub fn json_object() -> (r: Self)
        ensures
            r.format_type == OpenAiTextFormatType::JsonObject,
            r.name is None,
            r.schema is None,
            r.strict is None,
    {
        OpenAiTextFormat {
            format_type: OpenAiTextFormatType::JsonObject,
            name: None,
            schema: None,
            strict: None,
        }
    }

    /// The JSON-schema `text.format` payload: the schema's name and strictness,
    /// and the schema closed with `additionalProperties: false` where unset.
    pub fn json_schema(schema: StructuredOutputFormat) -> (r: Self)
        requires
            schema_takes_members(schema.schema),
        ensures
            r.format_type == OpenAiTextFormatType::JsonSchema,
            r.name == Some(schema.name),
            r.strict == schema.strict,
            opt_json_view(r.schema) == match opt_json_view(schema.schema) {
                Some(s) => Some(spec_close_schema(s)),
                None => None,
            },
    {
        let schema = schema.with_default_additional_properties_false();
        OpenAiTextFormat {
            format_type: OpenAiTextFormatType::JsonSchema,
            name: Some(schema.name),
            schema: schema.schema,
            strict: schema.strict,
        }
    }
}

/// OpenAI-family tool type.
#[derive(Debug, Clone, Copy, PartialEq, Eq, Structural)]
pub enum OpenAiToolType {
    /// Function tool definition.
    Function,
}

/// OpenAI-family function tool payload.
#[derive(Debug, PartialEq)]
pub struct OpenAiFunctionToolDefinition {
    /// Tool discriminator (`function`).
    pub tool_type: OpenAiToolType,
    /// Tool name exposed to the model.
    pub name: String,
    /// Tool description exposed to the model.
    pub description: Option<String>,
    /// JSON schema of the tool parameters.
    pub parameters: JsonValue,
    /// Strict schema flag for parameter validation.
    pub strict: Option<bool>,
}

/// OpenAI-family error payload.
#[derive(Debug, PartialEq)]
pub struct OpenAiErrorEnvelope {
    /// Provider-reported error message, which may be non-string on the wire.
    pub message: Option<JsonValue>,
    /// Provider-reported error code.
    pub code: Option<JsonValue>,
    /// Provider-reported error type (`type`).
    pub error_type: Option<JsonValue>,
    /// Parameter name associated with the error.
    pub param: Option<JsonValue>,
}

/// OpenAI-family incomplete-details payload.
#[derive(Debug, Clone, PartialEq, Eq)]
pub struct OpenAiIncompleteDetails {
    /// Why generation was incomplete.
    pub reason: Option<String>,
}

/// OpenAI-family usage detail payload.
#[derive(Debug, Clone, Copy, PartialEq, Eq, Structural)]
pub struct OpenAiUsageTokenDetails {
    /// Prompt tokens served from cache.
    pub cached_tokens: Option<u64>,
}

/// OpenAI-family usage payload.
#[derive(Debug, Clone, Copy, PartialEq, Eq, Structural)]
pub struct OpenAiResponseUsage {
    /// Prompt/input tokens consumed.
    pub input_tokens: Option<u64>,
    /// Completion/output tokens produced.
    pub output_tokens: Option<u64>,
    /// Combined tokens reported by the provider.
    pub total_tokens: Option<u64>,
    /// Prompt-token details such as cached token counts.
    pub input_tokens_details: Option<OpenAiUsageTokenDetails>,
}

impl Default for OpenAiResponseUsage {
    fn default() -> (r: Self)
        ensures
            r.input_tokens is None,
            r.output_tokens is None,
            r.total_tokens is None,
            r.input_tokens_details is None,
    {
        OpenAiResponseUsage { input_tokens: None, output_tokens: None, total_tokens: None, input_tokens_details: None }
    }
}

/// Canonical usage of an OpenAI usage payload: cached input comes from the details.
pub open spec fn spec_usage_from_openai(value: OpenAiResponseUsage) -> Usage {
    Usage {
        input_tokens: value.input_tokens,
        output_tokens: value.output_tokens,
        cached_input_tokens: match value.input_tokens_details {
            Some(d) => d.cached_tokens,
            None => None,
        },
        total_tokens: value.total_tokens,
    }
}

impl From<OpenAiResponseUsage> for Usage {
    fn from(value: OpenAiResponseUsage) -> (r: Self) {
        Usage {
            input_tokens: value.input_tokens,
            output_tokens: value.output_tokens,
            cached_input_tokens: match value.input_tokens_details {
                Some(d) => d.cached_tokens,
                None => None,
            },
            total_tokens: value.total_tokens,
        }
    }
}

impl vstd::std_specs::convert::FromSpecImpl<OpenAiResponseUsage> for Usage {
    open spec fn obeys_from_spec() -> bool {
        true
    }

    open spec fn from_spec(v: OpenAiResponseUsage) -> Usage {
        spec_usage_from_openai(v)
    }
}

/// OpenAI-family decoded Responses API envelope.
#[derive(Debug, PartialEq)]
pub struct OpenAiResponsesBody {
    /// Response status such as `completed` or `incomplete`.
    pub status: Option<String>,
    /// Model identifier returned by the provider.
    pub model: Option<String>,
    /// Raw output items array.
    pub output: Option<JsonValue>,
    /// Token usage.
    pub usage: Option<OpenAiResponseUsage>,
    /// Details of incomplete responses.
    pub incomplete_details: Option<OpenAiIncompleteDetails>,
    /// Embedded provider error payload.
    pub error: Option<OpenAiErrorEnvelope>,
}

/// OpenAI-family `output` item of an assistant message.
#[derive(Debug, PartialEq)]
pub struct OpenAiMessageOutputItem {
    /// Provider-generated item identifier.
    pub id: Option<String>,
    /// Item type discriminator (`message`).
    pub item_type: String,
    /// Item status such as `completed`.
    pub status: Option<String>,
    /// Role of the message item.
    pub role: Option<String>,
    /// Message content parts.
    pub content: Vec<JsonValue>,
}

/// OpenAI-family `output` item of a function call.
#[derive(Debug, Clone, PartialEq)]
pub struct OpenAiFunctionCallOutputItem {
    /// Provider-generated item identifier.
    pub id: Option<String>,
    /// Item type discriminator (`function_call`).
    pub item_type: String,
    /// Item status such as `completed`.
    pub status: Option<String>,
    /// JSON-encoded function arguments text.
    pub arguments: Option<String>,
    /// Provider-generated tool call identifier.
    pub call_id: Option<String>,
    /// Tool name selected by the model.
    pub name: Option<String>,
}

/// OpenAI-family `output` item of reasoning metadata.
#[derive(Debug, PartialEq)]
pub struct OpenAiReasoningOutputItem {
    /// Provider-generated item identifier.
    pub id: Option<String>,
    /// Item type discriminator (`reasoning`).
    pub item_type: String,
    /// Provider-specific reasoning summary.
    pub summary: Option<JsonValue>,
}

/// OpenAI-family `output` item of a refusal.
#[derive(Debug, Clone, PartialEq)]
pub struct OpenAiRefusalOutputItem {
    /// Provider-generated item identifier.
    pub id: Option<String>,
    /// Item type discriminator (`refusal`).
    pub item_type: String,
    /// Refusal text in a `text` member.
    pub text: Option<String>,
    /// Refusal text in a `refusal` member.
    pub refusal: Option<String>,
}

/// OpenAI-family assistant message content part.
#[derive(Debug, Clone, PartialEq)]
pub enum OpenAiMessageContentPart {
    /// Plain text output content.
    OutputText { text: Option<String> },
    /// Refusal content part.
    Refusal { text: Option<String>, refusal: Option<String> },
    /// Reasoning content part.
    Reasoning,
}

/// An optional text that is not blank.
pub open spec fn non_blank(t: Option<Seq<char>>) -> Option<Seq<char>> {
    match t {
        Some(s) => if spec_trim(s).len() == 0 {
            None
        } else {
            Some(s)
        },
        None => None,
    }
}

impl OpenAiMessageContentPart {
    /// The text of an `output_text` part.
    pub fn output_text(&self) -> (r: Option<&str>)
        ensures
            match r {
                Some(t) => self matches OpenAiMessageContentPart::OutputText { text } && opt_string_view(*text)
                    == Some(t@),
                None => !(self matches OpenAiMessageContentPart::OutputText { text } && text is Some),
            },
    {
        match self {
            OpenAiMessageContentPart::OutputText { text } => match text {
                Some(t) => Some(t.as_str()),
                None => None,
            },
            _ => None,
        }
    }

    /// The refusal text of a refusal part: its `text` when not blank, else
    /// its `refusal` when not blank.
    pub fn refusal_text(&self) -> (r: Option<&str>)
        ensures
            match self {
                OpenAiMessageContentPart::Refusal { text, refusal } => match non_blank(opt_string_view(*text)) {
                    Some(t) => r matches Some(x) && x@ == t,
                    None => match non_blank(opt_string_view(*refusal)) {
                        Some(t) => r matches Some(x) && x@ == t,
                        None => r is None,
                    },
                },
                _ => r is None,
            },
    {
        match self {
            OpenAiMessageContentPart::Refusal { text, refusal } => {
                match text {
                    Some(t) => {
                        if !is_blank_str(t.as_str()) {
                            return Some(t.as_str());
                        }
                    },
                    None => {},
                }
                match refusal {
                    Some(t) => {
                        if !is_blank_str(t.as_str()) {
                            return Some(t.as_str());
                        }
                    },
                    None => {},
                }
                None
            },
            _ => None,
        }
    }
}

} // verus!
