use agent_toolkit::providers::adapter::platform_config_from_url;
use agent_toolkit::providers::anthropic::AnthropicFamilyError;
use agent_toolkit::providers::openai::error::OpenAiFamilyError;
use std::cell::RefCell;
use std::rc::Rc;

use agent_toolkit::json::{JsonNumber, JsonValue};
use agent_toolkit::providers::adapter::{
    adapter_for, all_builtin_adapters, build_platform_config, decode_response_with_layering,
    layer_decode_failure, plan_request_with_layering, AnthropicAdapter, GenericOpenAiCompatibleAdapter,
    OpenAiAdapter, OpenRouterAdapter, ProviderAdapter,
    provider_family_name, provider_kind_name, trim_trailing_slashes, PlanRoute,
};
use agent_toolkit::providers::anthropic::decode::decode_anthropic_error;
use agent_toolkit::providers::error::{
    apply_layered_error_info, layered_error_info, normalize_metadata,
    rebind_adapter_error_provider, AdapterError, AdapterErrorKind, AdapterOperation,
    ProviderErrorInfo,
};
use agent_toolkit::providers::fixtures::{has_top_level_error_object, parse_error_relpath};
use agent_toolkit::types::{AuthStyle, ProtocolKind};
use agent_toolkit::{ProviderFamilyId, ProviderKind};

fn to_jv(value: serde_json::Value) -> JsonValue {
    match value {
        serde_json::Value::Null => JsonValue::Null,
        serde_json::Value::Bool(b) => JsonValue::Bool(b),
        serde_json::Value::Number(n) => {
            if let Some(u) = n.as_u64() {
                JsonValue::Number(JsonNumber::PosInt(u))
            } else if let Some(i) = n.as_i64() {
                JsonValue::Number(JsonNumber::NegInt(i))
            } else {
                JsonValue::Number(JsonNumber::Float(n.to_string()))
            }
        }
        serde_json::Value::String(s) => JsonValue::String(s),
        serde_json::Value::Array(items) => JsonValue::Array(items.into_iter().map(to_jv).collect()),
        serde_json::Value::Object(map) => {
            JsonValue::Object(map.into_iter().map(|(k, v)| (k, to_jv(v))).collect())
        }
    }
}

fn jv(text: &str) -> JsonValue {
    to_jv(serde_json::from_str(text).expect("test JSON must parse"))
}

/// Runs the family decoder, then the refinement decoder, and layers their details.
fn decode_error_with_composition_test_hook(
    family: impl FnOnce() -> Option<ProviderErrorInfo>,
    refinement: impl FnOnce() -> Option<ProviderErrorInfo>,
) -> Option<ProviderErrorInfo> {
    let family_info = family();
    let refinement_info = refinement();
    layered_error_info(family_info, refinement_info)
}

fn check_adapter_lookup_returns_expected_kinds() {
    assert_eq!(adapter_for(ProviderKind::OpenAi).kind(), ProviderKind::OpenAi);
    assert_eq!(adapter_for(ProviderKind::Anthropic).kind(), ProviderKind::Anthropic);
    assert_eq!(adapter_for(ProviderKind::OpenRouter).kind(), ProviderKind::OpenRouter);
    assert_eq!(
        adapter_for(ProviderKind::GenericOpenAiCompatible).kind(),
        ProviderKind::GenericOpenAiCompatible
    );
}

fn check_all_builtin_adapters_contains_all_known_providers() {
    let ids: Vec<ProviderKind> = all_builtin_adapters().iter().map(|adapter| adapter.kind()).collect();
    assert_eq!(ids.len(), 4);
    assert!(ids.contains(&ProviderKind::OpenAi));
    assert!(ids.contains(&ProviderKind::Anthropic));
    assert!(ids.contains(&ProviderKind::OpenRouter));
    assert!(ids.contains(&ProviderKind::GenericOpenAiCompatible));
}

fn check_openai_descriptor() {
    let openai = adapter_for(ProviderKind::OpenAi).descriptor();
    assert_eq!(openai.protocol, ProtocolKind::OpenAI);
    assert_eq!(openai.default_auth_style, AuthStyle::Bearer);
    assert_eq!(openai.default_base_url, "https://api.openai.com");
    assert_eq!(openai.endpoint_path, "/v1/responses");
}

fn check_anthropic_descriptor() {
    let anthropic = adapter_for(ProviderKind::Anthropic).descriptor();
    assert_eq!(anthropic.protocol, ProtocolKind::Anthropic);
    assert_eq!(anthropic.default_auth_style, AuthStyle::ApiKeyHeader("x-api-key".to_string()));
    assert_eq!(
        anthropic
            .default_headers
            .iter()
            .find(|(name, _)| name == "anthropic-version")
            .map(|(_, value)| value.as_str()),
        Some("2023-06-01")
    );
}

#[test]
fn test_adapter_lookup_returns_expected_kinds() {
    check_adapter_lookup_returns_expected_kinds();
}

#[test]
fn shared_adapter_lookup_returns_expected_kinds() {
    check_adapter_lookup_returns_expected_kinds();
}

#[test]
fn test_all_builtin_adapters_contains_all_known_providers() {
    check_all_builtin_adapters_contains_all_known_providers();
}

#[test]
fn shared_all_builtin_adapters_contains_all_known_providers() {
    check_all_builtin_adapters_contains_all_known_providers();
}

#[test]
fn test_descriptors_expose_expected_static_metadata() {
    check_openai_descriptor();
    check_anthropic_descriptor();
}

#[test]
fn anthropic_descriptors_expose_expected_static_metadata() {
    check_anthropic_descriptor();
}

#[test]
fn descriptor_expose_expected_static_metadata() {
    check_openai_descriptor();
}

#[test]
fn descriptors_name_their_kind_and_family() {
    for adapter in all_builtin_adapters() {
        let descriptor = adapter.descriptor();
        assert_eq!(descriptor.kind, adapter.kind());
        let expected_family = if adapter.kind() == ProviderKind::Anthropic {
            ProviderFamilyId::Anthropic
        } else {
            ProviderFamilyId::OpenAiCompatible
        };
        assert_eq!(descriptor.family, expected_family);
        assert_eq!(adapter.default_base_url(), descriptor.default_base_url);
        assert_eq!(adapter.endpoint_path(), descriptor.endpoint_path);
    }
    assert_eq!(
        adapter_for(ProviderKind::OpenRouter).descriptor().default_base_url,
        "https://openrouter.ai/api"
    );
    assert!(!adapter_for(ProviderKind::GenericOpenAiCompatible)
        .descriptor()
        .capabilities
        .supports_provider_native_options);
}

#[test]
fn decode_error_runs_family_before_overlay_refinement() {
    let call_order = Rc::new(RefCell::new(Vec::new()));
    let family_order = Rc::clone(&call_order);
    let overlay_order = Rc::clone(&call_order);

    let info = decode_error_with_composition_test_hook(
        move || {
            family_order.borrow_mut().push("family");
            Some(ProviderErrorInfo {
                provider_code: Some("family_code".to_string()),
                message: Some("family message".to_string()),
                kind: Some(AdapterErrorKind::Upstream),
            })
        },
        move || {
            overlay_order.borrow_mut().push("overlay");
            Some(ProviderErrorInfo {
                provider_code: Some("overlay_code".to_string()),
                message: None,
                kind: None,
            })
        },
    )
    .expect("error info should be present");

    assert_eq!(&*call_order.borrow(), &["family", "overlay"]);
    assert_eq!(info.provider_code.as_deref(), Some("overlay_code"));
    assert_eq!(info.message.as_deref(), Some("family message"));
    assert_eq!(info.kind, Some(AdapterErrorKind::Upstream));
}

#[test]
fn decode_error_overlay_fields_win_on_collision() {
    let info = decode_error_with_composition_test_hook(
        || {
            Some(ProviderErrorInfo {
                provider_code: Some("family_code".to_string()),
                message: Some("family message".to_string()),
                kind: Some(AdapterErrorKind::Decode),
            })
        },
        || {
            Some(ProviderErrorInfo {
                provider_code: Some("overlay_code".to_string()),
                message: Some("overlay message".to_string()),
                kind: Some(AdapterErrorKind::Upstream),
            })
        },
    )
    .expect("error info should be present");

    assert_eq!(info.provider_code.as_deref(), Some("overlay_code"));
    assert_eq!(info.message.as_deref(), Some("overlay message"));
    assert_eq!(info.kind, Some(AdapterErrorKind::Upstream));
}

#[test]
fn decode_error_runs_family_before_refinement_merge() {
    let call_order = Rc::new(RefCell::new(Vec::new()));
    let family_order = Rc::clone(&call_order);
    let refinement_order = Rc::clone(&call_order);

    let info = decode_error_with_composition_test_hook(
        move || {
            family_order.borrow_mut().push("family");
            Some(ProviderErrorInfo {
                provider_code: Some("family_code".to_string()),
                message: Some("family message".to_string()),
                kind: Some(AdapterErrorKind::Upstream),
            })
        },
        move || {
            refinement_order.borrow_mut().push("refinement");
            Some(ProviderErrorInfo {
                provider_code: Some("refinement_code".to_string()),
                message: None,
                kind: None,
            })
        },
    )
    .expect("error info should be present");

    assert_eq!(&*call_order.borrow(), &["family", "refinement"]);
    assert_eq!(info.provider_code.as_deref(), Some("refinement_code"));
    assert_eq!(info.message.as_deref(), Some("family message"));
    assert_eq!(info.kind, Some(AdapterErrorKind::Upstream));
}

#[test]
fn decode_error_refinement_fields_win_on_collision() {
    let info = decode_error_with_composition_test_hook(
        || {
            Some(ProviderErrorInfo {
                provider_code: Some("family_code".to_string()),
                message: Some("family message".to_string()),
                kind: Some(AdapterErrorKind::Decode),
            })
        },
        || {
            Some(ProviderErrorInfo {
                provider_code: Some("refinement_code".to_string()),
                message: Some("refinement message".to_string()),
                kind: Some(AdapterErrorKind::Upstream),
            })
        },
    )
    .expect("error info should be present");

    assert_eq!(info.provider_code.as_deref(), Some("refinement_code"));
    assert_eq!(info.message.as_deref(), Some("refinement message"));
    assert_eq!(info.kind, Some(AdapterErrorKind::Upstream));
}

#[test]
fn layered_error_info_keeps_the_side_that_exists() {
    let only_family = ProviderErrorInfo {
        provider_code: Some("f".to_string()),
        message: None,
        kind: Some(AdapterErrorKind::Decode),
    };
    assert_eq!(layered_error_info(Some(only_family.clone()), None), Some(only_family.clone()));
    assert_eq!(layered_error_info(None, Some(only_family.clone())), Some(only_family));
    assert_eq!(layered_error_info(None, None), None);
}

#[test]
fn refined_with_is_identity_for_an_empty_overlay() {
    let base = ProviderErrorInfo {
        provider_code: Some("code".to_string()),
        message: Some("message".to_string()),
        kind: Some(AdapterErrorKind::Upstream),
    };
    assert_eq!(base.clone().refined_with(ProviderErrorInfo::default()), base);
}

#[test]
fn apply_layered_error_info_overrides_error_fields() {
    let error = AdapterError::new(
        AdapterErrorKind::Decode,
        ProviderKind::Anthropic,
        AdapterOperation::DecodeResponse,
        "family failure",
    )
    .with_status_code(400);
    let refined = apply_layered_error_info(
        error,
        Some(ProviderErrorInfo {
            provider_code: Some("family_code".to_string()),
            message: Some("upstream says no".to_string()),
            kind: Some(AdapterErrorKind::Upstream),
        }),
        Some(ProviderErrorInfo { provider_code: Some("overlay_code".to_string()), message: None, kind: None }),
    );
    assert_eq!(refined.kind, AdapterErrorKind::Upstream);
    assert_eq!(refined.message, "upstream says no");
    assert_eq!(refined.provider_code.as_deref(), Some("overlay_code"));
    assert_eq!(refined.status_code, Some(400));
    assert_eq!(refined.operation, AdapterOperation::DecodeResponse);
}

#[test]
fn adapter_error_metadata_is_trimmed_and_blank_dropped() {
    let error = AdapterError::with_source(
        AdapterErrorKind::Transport,
        ProviderKind::OpenAi,
        AdapterOperation::BuildHttpRequest,
        "failed",
        "io".to_string(),
    )
    .with_request_id("  req_1  ".to_string())
    .with_provider_code("   ".to_string());
    assert_eq!(error.request_id.as_deref(), Some("req_1"));
    assert_eq!(error.provider_code, None);
    assert_eq!(error.source_ref(), Some("io"));
    assert_eq!(normalize_metadata("\tx \n".to_string()).as_deref(), Some("x"));
    assert_eq!(normalize_metadata("".to_string()), None);

    let rebound = rebind_adapter_error_provider(error, ProviderKind::OpenRouter);
    assert_eq!(rebound.provider, ProviderKind::OpenRouter);
    assert_eq!(rebound.request_id.as_deref(), Some("req_1"));
    assert_eq!(rebound.kind, AdapterErrorKind::Transport);
}

#[test]
fn anthropic_error_body_decodes_to_upstream_info() {
    let info = decode_anthropic_error(&jv(
        r#"{"type":"error","error":{"type":"invalid_request_error","message":"bad input"},"request_id":"req_123"}"#,
    ))
    .expect("error info should decode");
    assert_eq!(info.provider_code, None);
    assert_eq!(info.kind, Some(AdapterErrorKind::Upstream));
    assert!(info.message.as_deref().is_some_and(|message| message.contains("bad input")));
    assert_eq!(decode_anthropic_error(&jv(r#"{"role":"assistant"}"#)), None);
}

#[test]
fn provider_kind_names_match_debug_output() {
    for kind in [
        ProviderKind::OpenAi,
        ProviderKind::Anthropic,
        ProviderKind::OpenRouter,
        ProviderKind::GenericOpenAiCompatible,
    ] {
        assert_eq!(provider_kind_name(kind), format!("{kind:?}"));
    }
}

#[test]
fn trim_trailing_slashes_drops_every_trailing_slash() {
    assert_eq!(trim_trailing_slashes("https://a.b/v1///"), "https://a.b/v1");
    assert_eq!(trim_trailing_slashes("///"), "");
    assert_eq!(trim_trailing_slashes("x/y"), "x/y");
}

#[test]
fn platform_config_normalizes_base_url() {
    let config = adapter_for(ProviderKind::OpenRouter)
        .platform_config("  https://openrouter.ai/api/  ".to_string())
        .expect("valid url");
    assert_eq!(config.base_url, "https://openrouter.ai/api");
    assert_eq!(config.protocol, ProtocolKind::OpenAI);
    assert_eq!(config.auth_style, AuthStyle::Bearer);
    assert_eq!(config.request_id_header, "x-request-id");

    let root = adapter_for(ProviderKind::OpenAi)
        .platform_config("http://localhost:8080".to_string())
        .expect("valid url");
    assert_eq!(root.base_url, "http://localhost:8080");

    let anthropic = adapter_for(ProviderKind::Anthropic).descriptor();
    let config = build_platform_config(ProviderKind::Anthropic, &anthropic, "https://api.anthropic.com".to_string())
        .expect("valid url");
    assert_eq!(config.default_headers, vec![("anthropic-version".to_string(), "2023-06-01".to_string())]);
    assert_eq!(config.auth_style, AuthStyle::ApiKeyHeader("x-api-key".to_string()));
}

#[test]
fn platform_config_rejects_blank_invalid_and_non_http_urls() {
    let adapter = adapter_for(ProviderKind::Anthropic);

    let blank = adapter.platform_config("   ".to_string()).expect_err("blank url");
    assert_eq!(blank.kind, AdapterErrorKind::Validation);
    assert_eq!(blank.operation, AdapterOperation::BuildHttpRequest);
    assert_eq!(blank.message, "base_url is empty for provider Anthropic");

    let invalid = adapter.platform_config("not a url".to_string()).expect_err("invalid url");
    assert!(invalid.message.starts_with("base_url is not a valid URL for provider Anthropic: "));

    let ftp = adapter.platform_config("ftp://example.com".to_string()).expect_err("ftp url");
    assert_eq!(ftp.message, "base_url must use http or https for provider Anthropic, got scheme ftp");
    assert_eq!(ftp.provider, ProviderKind::Anthropic);
}

#[test]
fn parse_error_relpath_accepts_valid_relpath() {
    let parsed = parse_error_relpath("errors/invalid_auth/gpt-5-mini.json");
    assert_eq!(parsed, Ok(("invalid_auth", "gpt-5-mini")));
}

#[test]
fn parse_error_relpath_rejects_invalid_prefix() {
    let error = parse_error_relpath("not-errors/invalid_auth/model.json")
        .expect_err("expected invalid prefix");
    assert!(error.contains("unexpected error relpath prefix"));
}

#[test]
fn parse_error_relpath_rejects_missing_or_empty_segments() {
    let missing_scenario =
        parse_error_relpath("errors//model.json").expect_err("expected missing or empty scenario");
    assert!(
        missing_scenario.contains("empty error scenario")
            || missing_scenario.contains("missing error scenario")
    );

    let missing_file =
        parse_error_relpath("errors/invalid_auth").expect_err("expected missing error file");
    assert!(missing_file.contains("missing error file"));

    let empty_model =
        parse_error_relpath("errors/invalid_auth/.json").expect_err("expected empty model");
    assert!(empty_model.contains("empty error model"));
}

#[test]
fn parse_error_relpath_rejects_non_json_suffix() {
    let error = parse_error_relpath("errors/invalid_auth/model.txt")
        .expect_err("expected non-json suffix rejection");
    assert!(error.contains("does not end with .json"));
}

#[test]
fn parse_error_relpath_rejects_extra_segments_and_blank_scenario() {
    assert_eq!(
        parse_error_relpath("errors/a/b/c.json"),
        Err("unexpected error relpath shape: errors/a/b/c.json".to_string())
    );
    assert_eq!(
        parse_error_relpath("errors/ /m.json"),
        Err("empty error scenario in relpath: errors/ /m.json".to_string())
    );
    assert_eq!(
        parse_error_relpath("errors"),
        Err("missing error scenario in relpath: errors".to_string())
    );
}

#[test]
fn has_top_level_error_object_requires_error_object() {
    assert!(has_top_level_error_object(&jv(r#"{"error": { "message": "bad request" }}"#)));
    assert!(!has_top_level_error_object(&jv(r#"{"error": "bad request"}"#)));
    assert!(!has_top_level_error_object(&jv(r#"{"message": "bad request"}"#)));
}

#[test]
fn plan_route_matches_provider_and_family() {
    assert_eq!(
        plan_request_with_layering(ProviderKind::OpenAi, ProviderFamilyId::OpenAiCompatible).ok(),
        Some(PlanRoute::OpenAiCompatible(ProviderKind::OpenAi))
    );
    assert_eq!(
        plan_request_with_layering(ProviderKind::GenericOpenAiCompatible, ProviderFamilyId::OpenAiCompatible).ok(),
        Some(PlanRoute::OpenAiCompatible(ProviderKind::GenericOpenAiCompatible))
    );
    assert_eq!(
        plan_request_with_layering(ProviderKind::OpenRouter, ProviderFamilyId::OpenAiCompatible).ok(),
        Some(PlanRoute::OpenRouter)
    );
    assert_eq!(
        plan_request_with_layering(ProviderKind::Anthropic, ProviderFamilyId::Anthropic).ok(),
        Some(PlanRoute::Anthropic)
    );
    for adapter in all_builtin_adapters() {
        assert!(plan_request_with_layering(adapter.kind(), adapter.descriptor().family).is_ok());
    }
}

#[test]
fn plan_route_rejects_mismatched_family() {
    let error = plan_request_with_layering(ProviderKind::OpenAi, ProviderFamilyId::Anthropic).expect_err("mismatch");
    assert_eq!(error.kind, AdapterErrorKind::ProtocolViolation);
    assert_eq!(error.operation, AdapterOperation::PlanRequest);
    assert_eq!(error.provider, ProviderKind::OpenAi);
    assert_eq!(
        error.message,
        "adapter OpenAi does not support planning with provider family Anthropic"
    );
    assert_eq!(provider_family_name(ProviderFamilyId::OpenAiCompatible), "OpenAiCompatible");
}

#[test]
fn layer_decode_failure_rebinds_provider_and_applies_details() {
    let error = AdapterError::new(
        AdapterErrorKind::Decode,
        ProviderKind::OpenAi,
        AdapterOperation::DecodeResponse,
        "family failure",
    );
    let layered = layer_decode_failure(
        error,
        ProviderKind::OpenRouter,
        None,
        Some(ProviderErrorInfo {
            provider_code: Some("rate_limit".to_string()),
            message: None,
            kind: Some(AdapterErrorKind::Upstream),
        }),
    );
    assert_eq!(layered.provider, ProviderKind::OpenRouter);
    assert_eq!(layered.kind, AdapterErrorKind::Upstream);
    assert_eq!(layered.message, "family failure");
    assert_eq!(layered.provider_code.as_deref(), Some("rate_limit"));

    let untouched = layer_decode_failure(
        AdapterError::new(AdapterErrorKind::Decode, ProviderKind::OpenAi, AdapterOperation::DecodeResponse, "x"),
        ProviderKind::GenericOpenAiCompatible,
        None,
        None,
    );
    assert_eq!(untouched.kind, AdapterErrorKind::Decode);
    assert_eq!(untouched.message, "x");
    assert_eq!(untouched.provider, ProviderKind::GenericOpenAiCompatible);
}

#[test]
fn adapter_error_renders_provider_stage_kind_and_message() {
    let error = AdapterError::new(
        AdapterErrorKind::Validation,
        ProviderKind::Anthropic,
        AdapterOperation::BuildHttpRequest,
        "base_url is empty",
    );
    assert_eq!(
        error.to_display_string(),
        "Anthropic::BuildHttpRequest::Validation: base_url is empty"
    );
}

#[test]
fn family_errors_render_with_category_prefix() {

    assert_eq!(
        AnthropicFamilyError::validation("bad").to_display_string(),
        "validation error: bad"
    );
    assert_eq!(
        AnthropicFamilyError::encode_with_source("enc", "io".to_string()).to_display_string(),
        "encode error: enc"
    );
    assert_eq!(
        AnthropicFamilyError::unsupported_feature("x").to_display_string(),
        "unsupported feature: x"
    );
    assert_eq!(OpenAiFamilyError::upstream("up").to_display_string(), "upstream error: up");
    assert_eq!(
        OpenAiFamilyError::protocol_violation("order").to_display_string(),
        "protocol violation: order"
    );
}

#[test]
fn platform_config_uses_the_parsed_url_serialization() {
    let config = adapter_for(ProviderKind::OpenAi)
        .platform_config("HTTP://LOCALHOST:8080".to_string())
        .expect("valid url");
    assert_eq!(config.base_url, "http://localhost:8080");

    let default_port = adapter_for(ProviderKind::OpenAi)
        .platform_config("https://api.openai.com:443/v1/".to_string())
        .expect("valid url");
    assert_eq!(default_port.base_url, "https://api.openai.com/v1");
}

fn static_surface<A: ProviderAdapter>(adapter: &A) -> (ProviderKind, String, String) {
    (
        ProviderAdapter::kind(adapter),
        ProviderAdapter::default_base_url(adapter),
        ProviderAdapter::endpoint_path(adapter),
    )
}

#[test]
fn provider_adapter_trait_exposes_static_metadata() {
    assert_eq!(
        static_surface(&OpenAiAdapter),
        (ProviderKind::OpenAi, "https://api.openai.com".to_string(), "/v1/responses".to_string())
    );
    assert_eq!(
        static_surface(&AnthropicAdapter),
        (ProviderKind::Anthropic, "https://api.anthropic.com".to_string(), "/v1/messages".to_string())
    );
    assert_eq!(static_surface(&OpenRouterAdapter).0, ProviderKind::OpenRouter);
    assert_eq!(static_surface(&GenericOpenAiCompatibleAdapter).0, ProviderKind::GenericOpenAiCompatible);
    assert_eq!(
        static_surface(&adapter_for(ProviderKind::OpenRouter)).1,
        "https://openrouter.ai/api".to_string()
    );
    let config = ProviderAdapter::platform_config(&AnthropicAdapter, "https://example.com/".to_string())
        .expect("valid url");
    assert_eq!(config.base_url, "https://example.com");
}

fn sample_response() -> agent_toolkit::Response {
    agent_toolkit::Response {
        output: agent_toolkit::AssistantOutput { content: vec![], structured_output: None },
        usage: agent_toolkit::Usage::default(),
        model: "m".to_string(),
        raw_provider_response: None,
        finish_reason: agent_toolkit::FinishReason::Stop,
        warnings: vec![],
    }
}

#[test]
fn decode_response_with_layering_prefers_override_then_family() {
    let family_error = || {
        AdapterError::new(AdapterErrorKind::Decode, ProviderKind::OpenAi, AdapterOperation::DecodeResponse, "family failure")
    };
    let overridden = decode_response_with_layering(
        ProviderKind::OpenRouter,
        Some(Ok(sample_response())),
        Err(family_error()),
        None,
        None,
    );
    assert_eq!(overridden.expect("override wins").model, "m");

    let decoded = decode_response_with_layering(ProviderKind::OpenAi, None, Ok(sample_response()), None, None);
    assert_eq!(decoded.expect("family decode").finish_reason, agent_toolkit::FinishReason::Stop);

    let failed = decode_response_with_layering(
        ProviderKind::OpenRouter,
        None,
        Err(family_error()),
        Some(ProviderErrorInfo {
            provider_code: None,
            message: Some("upstream said no".to_string()),
            kind: Some(AdapterErrorKind::Upstream),
        }),
        Some(ProviderErrorInfo { provider_code: Some("code".to_string()), message: None, kind: None }),
    )
    .expect_err("family error");
    assert_eq!(failed.provider, ProviderKind::OpenRouter);
    assert_eq!(failed.kind, AdapterErrorKind::Upstream);
    assert_eq!(failed.message, "upstream said no");
    assert_eq!(failed.provider_code.as_deref(), Some("code"));
}

#[test]
fn platform_config_from_url_checks_scheme_and_strips_slashes() {
    let descriptor = adapter_for(ProviderKind::OpenAi).descriptor();
    let config = platform_config_from_url(
        ProviderKind::OpenAi,
        &descriptor,
        Ok(("https".to_string(), "https://host/v1//".to_string())),
    )
    .expect("https url");
    assert_eq!(config.base_url, "https://host/v1");
    let bad_scheme = platform_config_from_url(
        ProviderKind::OpenAi,
        &descriptor,
        Ok(("ws".to_string(), "ws://host/".to_string())),
    )
    .expect_err("ws scheme");
    assert_eq!(bad_scheme.message, "base_url must use http or https for provider OpenAi, got scheme ws");
    let unparsed = platform_config_from_url(ProviderKind::OpenAi, &descriptor, Err("empty host".to_string()))
        .expect_err("parse error");
    assert_eq!(unparsed.message, "base_url is not a valid URL for provider OpenAi: empty host");
}
