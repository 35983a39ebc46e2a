use axonerai::anthropic;
use axonerai::anthropic::ContentBlock;
use axonerai::errors::AgentError;
use axonerai::groq;
use axonerai::openai;
use axonerai::openai::{Choice, RawToolCall, ResponseMessage};
use axonerai::provider::{stop_reason_from_signal, StopReason};

fn text_block(text: &str) -> ContentBlock {
    ContentBlock {
        content_type: "text".to_string(),
        text: Some(text.to_string()),
        id: None,
        name: None,
        input: None,
    }
}

fn tool_use_block(id: Option<&str>, name: Option<&str>, input: Option<&str>) -> ContentBlock {
    ContentBlock {
        content_type: "tool_use".to_string(),
        text: None,
        id: id.map(|s| s.to_string()),
        name: name.map(|s| s.to_string()),
        input: input.map(|s| s.to_string()),
    }
}

fn choice(content: Option<&str>, calls: Option<Vec<(&str, &str, &str)>>, finish: &str) -> Choice {
    Choice {
        message: ResponseMessage {
            content: content.map(|s| s.to_string()),
            tool_calls: calls.map(|cs| {
                cs.into_iter()
                    .map(|(id, name, arguments)| RawToolCall {
                        id: id.to_string(),
                        name: name.to_string(),
                        arguments: arguments.to_string(),
                    })
                    .collect()
            }),
        },
        finish_reason: finish.to_string(),
    }
}

#[test]
fn stop_signal_mapping_table() {
    assert_eq!(stop_reason_from_signal("tool_use"), StopReason::ToolUse);
    assert_eq!(stop_reason_from_signal("tool_calls"), StopReason::ToolUse);
    assert_eq!(stop_reason_from_signal("end_turn"), StopReason::EndTurn);
    assert_eq!(stop_reason_from_signal("stop"), StopReason::EndTurn);
    assert_eq!(stop_reason_from_signal("max_tokens"), StopReason::MaxTokens);
    assert_eq!(stop_reason_from_signal("length"), StopReason::MaxTokens);
    assert_eq!(stop_reason_from_signal("content_filter"), StopReason::ContentFilter);
    assert_eq!(stop_reason_from_signal("banana"), StopReason::Error);
    assert_eq!(stop_reason_from_signal(""), StopReason::Error);
}

#[test]
fn length_maps_to_max_tokens_for_every_backend() {
    let blocks = vec![text_block("partial answer")];
    let a = anthropic::normalize_response(&blocks, "length");
    assert_eq!(a.stop_reason, StopReason::MaxTokens);

    let o = openai::normalize_response(&vec![choice(Some("partial answer"), None, "length")])
        .unwrap();
    assert_eq!(o.stop_reason, StopReason::MaxTokens);

    let g = groq::normalize_response(&vec![choice(Some("partial answer"), None, "length")])
        .unwrap();
    assert_eq!(g.stop_reason, StopReason::MaxTokens);
}

#[test]
fn anthropic_joins_text_blocks_and_collects_calls() {
    let blocks = vec![
        text_block("first"),
        tool_use_block(Some("t1"), Some("calculator"), Some("{\"a\":1}")),
        text_block("second"),
        ContentBlock {
            content_type: "thinking".to_string(),
            text: Some("ignored".to_string()),
            id: None,
            name: None,
            input: None,
        },
    ];
    let r = anthropic::normalize_response(&blocks, "tool_use");
    assert_eq!(r.text, Some("first\nsecond".to_string()));
    assert_eq!(r.tool_calls.len(), 1);
    assert_eq!(r.tool_calls[0].id, "t1");
    assert_eq!(r.tool_calls[0].name, "calculator");
    assert_eq!(r.tool_calls[0].input, "{\"a\":1}");
    assert_eq!(r.stop_reason, StopReason::ToolUse);
}

#[test]
fn anthropic_incomplete_tool_use_block_is_skipped() {
    let blocks = vec![tool_use_block(None, Some("calculator"), Some("{}"))];
    let r = anthropic::normalize_response(&blocks, "end_turn");
    assert_eq!(r.tool_calls.len(), 0);
    assert_eq!(r.text, None);
    assert_eq!(r.stop_reason, StopReason::EndTurn);
}

#[test]
fn anthropic_maps_its_own_signals() {
    let blocks = vec![text_block("x")];
    assert_eq!(anthropic::normalize_response(&blocks, "end_turn").stop_reason, StopReason::EndTurn);
    assert_eq!(
        anthropic::normalize_response(&blocks, "max_tokens").stop_reason,
        StopReason::MaxTokens
    );
    assert_eq!(anthropic::normalize_response(&blocks, "refusal").stop_reason, StopReason::Error);
}

#[test]
fn openai_keeps_valid_json_arguments() {
    let r = openai::normalize_response(&vec![choice(
        None,
        Some(vec![("c1", "calculator", "{\"operation\":\"add\",\"a\":1,\"b\":2}")]),
        "tool_calls",
    )])
    .unwrap();
    assert_eq!(r.tool_calls.len(), 1);
    assert_eq!(r.tool_calls[0].input, "{\"operation\":\"add\",\"a\":1,\"b\":2}");
    assert_eq!(r.stop_reason, StopReason::ToolUse);
}

#[test]
fn openai_downgrades_malformed_arguments_to_empty_object() {
    let r = openai::normalize_response(&vec![choice(
        None,
        Some(vec![("c1", "calculator", "this is not json {"), ("c2", "calculator", "7")]),
        "tool_calls",
    )])
    .unwrap();
    assert_eq!(r.tool_calls[0].input, "{}");
    // a bare number is valid JSON text and is kept as it came
    assert_eq!(r.tool_calls[1].input, "7");
}

#[test]
fn openai_without_choices_is_a_provider_error() {
    let err = openai::normalize_response(&Vec::new()).unwrap_err();
    assert_eq!(err, AgentError::ProviderError("No choices in OpenAI response".to_string()));
    let err = groq::normalize_response(&Vec::new()).unwrap_err();
    assert_eq!(err, AgentError::ProviderError("No choices in Groq response".to_string()));
}

#[test]
fn openai_without_tool_calls_has_none() {
    let r = openai::normalize_response(&vec![choice(Some("plain answer"), None, "stop")]).unwrap();
    assert_eq!(r.text, Some("plain answer".to_string()));
    assert_eq!(r.tool_calls.len(), 0);
    assert_eq!(r.stop_reason, StopReason::EndTurn);
}

#[test]
fn provider_configurations_carry_key_and_model() {
    let a = anthropic::AnthropicProvider::new("SECRET-REDACTED".to_string());
    assert_eq!(a.model(), "anthropic-default-model");
    let a = a.with_model("model-x".to_string());
    assert_eq!(a.model(), "model-x");
    assert_eq!(a.api_key(), "SECRET-REDACTED");

    let o = openai::OpenAIProvider::new("SECRET-REDACTED".to_string());
    assert_eq!(o.model(), "gpt-5-mini");
    assert_eq!(o.with_model("gpt-x".to_string()).model(), "gpt-x");

    let g = groq::GroqProvider::new("SECRET-REDACTED".to_string());
    assert_eq!(g.model(), "openai/gpt-oss-20b");
    assert_eq!(g.with_model("mixtral".to_string()).model(), "mixtral");
}
