use agent_toolkit::providers::anthropic::stream_projector::AnthropicStreamProjector;
use agent_toolkit::{
    CanonicalStreamEnvelope, CanonicalStreamEvent, CanonicalStreamProjector, FinishReason,
    MessageRole, ProviderId, ProviderRawStreamEvent, RawStreamPayload, StreamOutputItemEnd,
    StreamOutputItemStart, Usage,
};

fn frame(provider: ProviderId, sequence: u64, event: Option<&str>, data: &str) -> ProviderRawStreamEvent {
    ProviderRawStreamEvent::from_sse(
        provider,
        sequence,
        event.map(|e| e.to_string()),
        None,
        None,
        data,
    )
}

fn project_all(frames: Vec<ProviderRawStreamEvent>) -> Vec<CanonicalStreamEnvelope> {
    let mut projector = CanonicalStreamProjector::default();
    frames.into_iter().map(|f| projector.project(f)).collect()
}

fn flatten(envelopes: &[CanonicalStreamEnvelope]) -> Vec<CanonicalStreamEvent> {
    envelopes.iter().flat_map(|e| e.canonical.iter().cloned()).collect()
}

fn openai_frames() -> Vec<ProviderRawStreamEvent> {
    let p = ProviderId::OpenAi;
    vec![
        frame(p, 0, Some("response.created"), r#"{"type":"response.created","response":{"id":"resp_1","model":"gpt-5.1-2025-11-13"}}"#),
        frame(p, 1, Some("response.in_progress"), r#"{"type":"response.in_progress","response":{"id":"resp_1","model":"gpt-5.1-2025-11-13"}}"#),
        frame(p, 2, None, r#"{"type":"response.output_item.added","output_index":0,"item":{"type":"message","id":"msg_1","role":"assistant"}}"#),
        frame(p, 3, None, r#"{"type":"response.output_text.delta","output_index":0,"content_index":0,"item_id":"msg_1","delta":"Running"}"#),
        frame(p, 4, None, r#"{"type":"response.output_item.done","output_index":0,"item":{"type":"message","id":"msg_1"}}"#),
        frame(p, 5, None, r#"{"type":"response.completed","response":{"output":[{"type":"message"}],"usage":{"input_tokens":50,"output_tokens":16,"total_tokens":66,"input_tokens_details":{"cached_tokens":4}}}}"#),
    ]
}

#[test]
fn openai_stream_projects_text_usage_and_completion() {
    let canonical = flatten(&project_all(openai_frames()));

    assert_eq!(
        canonical,
        vec![
            CanonicalStreamEvent::ResponseStarted {
                model: Some("gpt-5.1-2025-11-13".to_string()),
                response_id: Some("resp_1".to_string()),
            },
            CanonicalStreamEvent::OutputItemStarted {
                output_index: 0,
                item: StreamOutputItemStart::Message {
                    item_id: Some("msg_1".to_string()),
                    role: MessageRole::Assistant,
                },
            },
            CanonicalStreamEvent::TextDelta {
                output_index: 0,
                content_index: 0,
                item_id: Some("msg_1".to_string()),
                delta: "Running".to_string(),
            },
            CanonicalStreamEvent::OutputItemCompleted {
                output_index: 0,
                item: StreamOutputItemEnd::Message { item_id: Some("msg_1".to_string()) },
            },
            CanonicalStreamEvent::UsageUpdated {
                usage: Usage {
                    input_tokens: Some(50),
                    output_tokens: Some(16),
                    cached_input_tokens: Some(4),
                    total_tokens: Some(66),
                },
            },
            CanonicalStreamEvent::Completed { finish_reason: FinishReason::Stop },
        ]
    );
}

#[test]
fn openai_stream_tool_call_projects_argument_deltas_and_tool_calls_finish() {
    let p = ProviderId::OpenAi;
    let canonical = flatten(&project_all(vec![
        frame(p, 0, None, r#"{"type":"response.output_item.added","output_index":0,"item":{"type":"function_call","id":"fc_1","call_id":"call_1","name":"get_weather"}}"#),
        frame(p, 1, None, r#"{"type":"response.function_call_arguments.delta","output_index":0,"item_id":"fc_1","delta":"San"}"#),
        frame(p, 2, None, r#"{"type":"response.output_item.done","output_index":0,"item":{"type":"function_call","id":"fc_1","call_id":"call_1","name":"get_weather","arguments":"{\"city\":\"San Francisco\"}"}}"#),
        frame(p, 3, None, r#"{"type":"response.completed","response":{"output":[{"type":"function_call"}]}}"#),
    ]));

    assert!(canonical.iter().any(|event| matches!(
        event,
        CanonicalStreamEvent::OutputItemStarted {
            output_index: 0,
            item: StreamOutputItemStart::ToolCall { name, .. },
        } if name == "get_weather"
    )));
    assert!(canonical.contains(&CanonicalStreamEvent::ToolCallArgumentsDelta {
        output_index: 0,
        tool_call_index: 0,
        item_id: Some("fc_1".to_string()),
        tool_call_id: None,
        tool_name: None,
        delta: "San".to_string(),
    }));
    assert!(canonical.iter().any(|event| matches!(
        event,
        CanonicalStreamEvent::OutputItemCompleted {
            output_index: 0,
            item: StreamOutputItemEnd::ToolCall { name, arguments_json_text, .. },
        } if name == "get_weather" && arguments_json_text == "{\"city\":\"San Francisco\"}"
    )));
    assert_eq!(
        canonical.last(),
        Some(&CanonicalStreamEvent::Completed { finish_reason: FinishReason::ToolCalls })
    );
}

#[test]
fn openai_stream_error_event_fails_the_stream() {
    let p = ProviderId::OpenAi;
    let canonical = flatten(&project_all(vec![
        frame(p, 0, None, r#"{"type":"error","error":{"message":"boom"}}"#),
        frame(p, 1, None, r#"{"type":"response.completed","response":{"output":[]}}"#),
    ]));
    assert_eq!(
        canonical,
        vec![CanonicalStreamEvent::Failed { message: "boom".to_string() }]
    );
}

fn anthropic_frames() -> Vec<ProviderRawStreamEvent> {
    let p = ProviderId::Anthropic;
    vec![
        frame(p, 0, Some("message_start"), r#"{"type":"message_start","message":{"id":"msg_01","model":"sonnet-4-5-20250929"}}"#),
        frame(p, 1, Some("content_block_start"), r#"{"type":"content_block_start","index":1,"content_block":{"type":"tool_use","id":"toolu_1","name":"calculator"}}"#),
        frame(p, 2, Some("content_block_delta"), r#"{"type":"content_block_delta","index":1,"delta":{"type":"input_json_delta","partial_json":"{\"expres"}}"#),
        frame(p, 3, Some("content_block_delta"), r#"{"type":"content_block_delta","index":1,"delta":{"type":"input_json_delta","partial_json":"sion\": \"2 * 2\"}"}}"#),
        frame(p, 4, Some("content_block_stop"), r#"{"type":"content_block_stop","index":1}"#),
        frame(p, 5, Some("message_delta"), r#"{"type":"message_delta","delta":{"stop_reason":"tool_use"},"usage":{"input_tokens":591,"output_tokens":60}}"#),
        frame(p, 6, Some("message_stop"), r#"{"type":"message_stop"}"#),
    ]
}

#[test]
fn anthropic_stream_tool_call_projects_tool_use_and_usage() {
    let canonical = flatten(&project_all(anthropic_frames()));

    assert_eq!(
        canonical.first(),
        Some(&CanonicalStreamEvent::ResponseStarted {
            model: Some("sonnet-4-5-20250929".to_string()),
            response_id: Some("msg_01".to_string()),
        })
    );
    assert!(canonical.contains(&CanonicalStreamEvent::ToolCallArgumentsDelta {
        output_index: 1,
        tool_call_index: 1,
        item_id: None,
        tool_call_id: Some("toolu_1".to_string()),
        tool_name: Some("calculator".to_string()),
        delta: "{\"expres".to_string(),
    }));
    assert!(canonical.contains(&CanonicalStreamEvent::OutputItemCompleted {
        output_index: 1,
        item: StreamOutputItemEnd::ToolCall {
            item_id: None,
            tool_call_id: Some("toolu_1".to_string()),
            name: "calculator".to_string(),
            arguments_json_text: "{\"expression\": \"2 * 2\"}".to_string(),
        },
    }));
    assert!(canonical.contains(&CanonicalStreamEvent::UsageUpdated {
        usage: Usage {
            input_tokens: Some(591),
            output_tokens: Some(60),
            cached_input_tokens: Some(0),
            total_tokens: None,
        },
    }));
    assert_eq!(
        canonical.last(),
        Some(&CanonicalStreamEvent::Completed { finish_reason: FinishReason::ToolCalls })
    );
}

#[test]
fn anthropic_stream_without_stop_reason_completes_with_other() {
    let p = ProviderId::Anthropic;
    let canonical = flatten(&project_all(vec![
        frame(p, 0, Some("message_stop"), r#"{"type":"message_stop"}"#),
        frame(p, 1, Some("message_stop"), r#"{"type":"message_stop"}"#),
    ]));
    assert_eq!(
        canonical,
        vec![CanonicalStreamEvent::Completed { finish_reason: FinishReason::Other }]
    );
}

#[test]
fn openrouter_stream_ignores_comments_and_synthesizes_message_flow() {
    let p = ProviderId::OpenRouter;
    let envelopes = project_all(vec![
        ProviderRawStreamEvent::from_sse_comment(p, 0, "OPENROUTER PROCESSING"),
        frame(p, 1, None, r#"{"id":"gen-1","model":"anthropic/sonnet-4.5-20250929","choices":[{"index":0,"delta":{"role":"assistant","content":"I'm doing well, thank you!"}}]}"#),
        frame(p, 2, None, r#"{"id":"gen-1","model":"anthropic/sonnet-4.5-20250929","choices":[{"index":0,"delta":{"content":""},"finish_reason":"stop"}],"usage":{"prompt_tokens":44,"completion_tokens":11,"total_tokens":55}}"#),
        frame(p, 3, None, "[DONE]"),
    ]);

    assert!(matches!(envelopes[0].raw.payload, RawStreamPayload::Comment { .. }));
    assert!(envelopes[0].canonical.is_empty());
    assert!(envelopes[3].canonical.is_empty());

    let canonical = flatten(&envelopes);
    assert_eq!(
        canonical,
        vec![
            CanonicalStreamEvent::ResponseStarted {
                model: Some("anthropic/sonnet-4.5-20250929".to_string()),
                response_id: Some("gen-1".to_string()),
            },
            CanonicalStreamEvent::OutputItemStarted {
                output_index: 0,
                item: StreamOutputItemStart::Message { item_id: None, role: MessageRole::Assistant },
            },
            CanonicalStreamEvent::TextDelta {
                output_index: 0,
                content_index: 0,
                item_id: None,
                delta: "I'm doing well, thank you!".to_string(),
            },
            CanonicalStreamEvent::UsageUpdated {
                usage: Usage {
                    input_tokens: Some(44),
                    output_tokens: Some(11),
                    cached_input_tokens: None,
                    total_tokens: Some(55),
                },
            },
            CanonicalStreamEvent::OutputItemCompleted {
                output_index: 0,
                item: StreamOutputItemEnd::Message { item_id: None },
            },
            CanonicalStreamEvent::Completed { finish_reason: FinishReason::Stop },
        ]
    );
}

#[test]
fn openrouter_stream_tool_calls_complete_in_index_order_on_finish() {
    let p = ProviderId::OpenRouter;
    let canonical = flatten(&project_all(vec![
        frame(p, 0, None, r#"{"id":"gen-2","choices":[{"index":0,"delta":{"tool_calls":[{"index":1,"id":"call_b","function":{"name":"second","arguments":"{}"}},{"index":0,"id":"call_a","function":{"name":"first","arguments":"{\"x\""}}]}}]}"#),
        frame(p, 1, None, r#"{"choices":[{"index":0,"delta":{"tool_calls":[{"index":0,"function":{"arguments":":1}"}}]}}]}"#),
        frame(p, 2, None, r#"{"choices":[{"index":0,"delta":{},"finish_reason":"tool_calls"}]}"#),
    ]));

    let completed: Vec<&CanonicalStreamEvent> = canonical
        .iter()
        .filter(|e| matches!(e, CanonicalStreamEvent::OutputItemCompleted { .. }))
        .collect();
    assert_eq!(
        completed,
        vec![
            &CanonicalStreamEvent::OutputItemCompleted {
                output_index: 0,
                item: StreamOutputItemEnd::ToolCall {
                    item_id: Some("call_a".to_string()),
                    tool_call_id: Some("call_a".to_string()),
                    name: "first".to_string(),
                    arguments_json_text: "{\"x\":1}".to_string(),
                },
            },
            &CanonicalStreamEvent::OutputItemCompleted {
                output_index: 0,
                item: StreamOutputItemEnd::ToolCall {
                    item_id: Some("call_b".to_string()),
                    tool_call_id: Some("call_b".to_string()),
                    name: "second".to_string(),
                    arguments_json_text: "{}".to_string(),
                },
            },
        ]
    );
    assert_eq!(
        canonical.last(),
        Some(&CanonicalStreamEvent::Completed { finish_reason: FinishReason::ToolCalls })
    );
}

#[test]
fn openrouter_done_completes_once_with_other() {
    let p = ProviderId::OpenRouter;
    let canonical = flatten(&project_all(vec![frame(p, 0, None, "[DONE]"), frame(p, 1, None, "[DONE]")]));
    assert_eq!(
        canonical,
        vec![CanonicalStreamEvent::Completed { finish_reason: FinishReason::Other }]
    );
}

#[test]
fn anthropic_family_projector_projects_tool_use_flow() {
    let mut family = AnthropicStreamProjector::new();
    let mut events = Vec::new();
    for f in anthropic_frames() {
        events.extend(family.project(f).expect("projection never fails"));
    }
    assert_eq!(
        events.first(),
        Some(&CanonicalStreamEvent::ResponseStarted {
            model: Some("sonnet-4-5-20250929".to_string()),
            response_id: Some("msg_01".to_string()),
        })
    );
    assert!(events.contains(&CanonicalStreamEvent::OutputItemCompleted {
        output_index: 1,
        item: StreamOutputItemEnd::ToolCall {
            item_id: None,
            tool_call_id: Some("toolu_1".to_string()),
            name: "calculator".to_string(),
            arguments_json_text: "{\"expression\": \"2 * 2\"}".to_string(),
        },
    }));
    assert_eq!(
        events.last(),
        Some(&CanonicalStreamEvent::Completed { finish_reason: FinishReason::ToolCalls })
    );
}

#[test]
fn anthropic_family_projector_ignores_non_json_frames() {
    let mut family = AnthropicStreamProjector::default();
    let got = family
        .project(ProviderRawStreamEvent::from_sse_comment(ProviderId::Anthropic, 0, "ping"))
        .expect("projection never fails");
    assert!(got.is_empty());
}

#[test]
fn anthropic_message_body_reads_every_member() {
    use_message_body();
}

fn use_message_body() {
    let body = agent_toolkit::providers::anthropic::wire::AnthropicMessageBody::from_json(
        &ProviderRawStreamEvent::from_sse(
            ProviderId::Anthropic,
            0,
            None,
            None,
            None,
            r#"{"id":"msg_1","type":"message","role":"assistant","model":"m","content":[{"type":"text"}],"stop_reason":null,"stop_sequence":"END","usage":{"input_tokens":1}}"#,
        )
        .json()
        .expect("json frame"),
    )
    .expect("message body shape");
    assert_eq!(body.id.as_deref(), Some("msg_1"));
    assert_eq!(body.message_type.as_deref(), Some("message"));
    assert_eq!(body.role.as_deref(), Some("assistant"));
    assert_eq!(body.model.as_deref(), Some("m"));
    assert_eq!(body.content.len(), 1);
    assert_eq!(body.stop_reason, None);
    assert!(body.stop_sequence.is_some());
    assert!(body.usage.is_some());
}

fn anthropic_event(name: &str, data: &str) -> ProviderRawStreamEvent {
    frame(ProviderId::Anthropic, 0, Some(name), data)
}

#[test]
fn anthropic_family_default_projector_accumulates_tool_arguments() {
    let mut p = AnthropicStreamProjector::default();
    p.project(anthropic_event(
        "content_block_start",
        r#"{"index":0,"content_block":{"type":"tool_use","id":"t1","name":"calc"}}"#,
    ))
    .expect("projection never fails");
    for fragment in ["ab", "cd"] {
        let data = format!(
            r#"{{"index":0,"delta":{{"type":"input_json_delta","partial_json":"{fragment}"}}}}"#
        );
        p.project(anthropic_event("content_block_delta", &data)).expect("projection never fails");
    }
    assert_eq!(
        p.project(anthropic_event("content_block_stop", r#"{"index":0}"#)).expect("projection never fails"),
        vec![CanonicalStreamEvent::OutputItemCompleted {
            output_index: 0,
            item: StreamOutputItemEnd::ToolCall {
                item_id: None,
                tool_call_id: Some("t1".to_string()),
                name: "calc".to_string(),
                arguments_json_text: "abcd".to_string(),
            },
        }]
    );
}

#[test]
fn anthropic_family_default_projector_completes_with_recorded_stop_reason() {
    let mut p = AnthropicStreamProjector::default();
    p.project(anthropic_event("message_delta", r#"{"delta":{"stop_reason":"tool_use"}}"#))
        .expect("projection never fails");
    assert_eq!(
        p.project(anthropic_event("message_stop", "{}")).expect("projection never fails"),
        vec![CanonicalStreamEvent::Completed { finish_reason: FinishReason::ToolCalls }]
    );
    assert_eq!(
        p.project(anthropic_event("message_stop", "{}")).expect("projection never fails"),
        vec![]
    );

    let mut fresh = AnthropicStreamProjector::default();
    assert_eq!(
        fresh.project(anthropic_event("message_stop", "{}")).expect("projection never fails"),
        vec![CanonicalStreamEvent::Completed { finish_reason: FinishReason::Other }]
    );
}

#[test]
fn openrouter_finished_tool_call_is_not_completed_twice() {
    let p = ProviderId::OpenRouter;
    let canonical = flatten(&project_all(vec![
        frame(p, 0, None, r#"{"id":"g","model":"m","choices":[{"index":0,"delta":{"tool_calls":[{"index":0,"id":"c1","function":{"name":"f","arguments":"{\"a\""}}]}}]}"#),
        frame(p, 1, None, r#"{"choices":[{"index":0,"delta":{"tool_calls":[{"index":0,"function":{"arguments":":2}"}}]}}]}"#),
        frame(p, 2, None, r#"{"choices":[{"index":0,"delta":{},"finish_reason":"tool_calls"}]}"#),
        frame(p, 3, None, r#"{"choices":[{"index":0,"delta":{},"finish_reason":"tool_calls"}]}"#),
    ]));
    let tool_completions: Vec<&CanonicalStreamEvent> = canonical
        .iter()
        .filter(|e| matches!(e, CanonicalStreamEvent::OutputItemCompleted { item: StreamOutputItemEnd::ToolCall { .. }, .. }))
        .collect();
    assert_eq!(
        tool_completions,
        vec![&CanonicalStreamEvent::OutputItemCompleted {
            output_index: 0,
            item: StreamOutputItemEnd::ToolCall {
                item_id: Some("c1".to_string()),
                tool_call_id: Some("c1".to_string()),
                name: "f".to_string(),
                arguments_json_text: "{\"a\":2}".to_string(),
            },
        }]
    );
    assert_eq!(
        canonical.iter().filter(|e| matches!(e, CanonicalStreamEvent::Completed { .. })).count(),
        1
    );
    assert_eq!(
        canonical.iter().filter(|e| matches!(e, CanonicalStreamEvent::ResponseStarted { .. })).count(),
        1
    );
    assert_eq!(
        canonical.first(),
        Some(&CanonicalStreamEvent::ResponseStarted {
            model: Some("m".to_string()),
            response_id: Some("g".to_string()),
        })
    );
}
