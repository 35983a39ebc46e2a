use axonerai::agent::{Agent, Turn};
use axonerai::errors::AgentError;
use axonerai::provider::{CompletionResponse, Message, Role, StopReason, ToolCall};
use axonerai::session::Session;
use axonerai::tool::ToolRegistry;
use axonerai::tools::Calculator;

fn end_turn(text: Option<&str>) -> Turn {
    Turn {
        response: CompletionResponse {
            text: text.map(|t| t.to_string()),
            tool_calls: Vec::new(),
            stop_reason: StopReason::EndTurn,
        },
        outcomes: Vec::new(),
    }
}

fn tool_turn(calls: Vec<(&str, &str, &str)>, outcomes: Vec<Result<&str, &str>>) -> Turn {
    Turn {
        response: CompletionResponse {
            text: None,
            tool_calls: calls
                .into_iter()
                .map(|(id, name, input)| ToolCall {
                    id: id.to_string(),
                    name: name.to_string(),
                    input: input.to_string(),
                })
                .collect(),
            stop_reason: StopReason::ToolUse,
        },
        outcomes: outcomes
            .into_iter()
            .map(|o| match o {
                Ok(s) => Ok(s.to_string()),
                Err(s) => Err(s.to_string()),
            })
            .collect(),
    }
}

fn calculator_registry() -> ToolRegistry {
    let mut registry = ToolRegistry::new();
    registry.register(Calculator.declaration());
    registry
}

#[test]
fn end_turn_returns_text_and_appends_assistant_message() {
    let agent = Agent::new(ToolRegistry::new(), None);
    let mut session = Session::new("s1".to_string());
    let script = vec![end_turn(Some("hello there"))];
    let result = agent.run(&mut session, "hi", &script).unwrap();
    assert_eq!(result, "hello there");
    let messages = session.get_messages();
    assert_eq!(messages.len(), 2);
    assert_eq!(messages[0], Message { role: Role::User, content: "hi".to_string() });
    assert_eq!(messages[1], Message { role: Role::Assistant, content: "hello there".to_string() });
}

#[test]
fn end_turn_without_text_returns_fallback_and_appends_nothing() {
    let agent = Agent::new(ToolRegistry::new(), None);
    let mut session = Session::new("s1".to_string());
    let script = vec![end_turn(None)];
    let result = agent.run(&mut session, "hi", &script).unwrap();
    assert_eq!(result, "(No response from agent)");
    let messages = session.get_messages();
    assert_eq!(messages.len(), 1);
    assert_eq!(messages[0].role, Role::User);
}

#[test]
fn tool_turns_then_end_turn_record_calls_in_order() {
    let agent = Agent::new(calculator_registry(), None);
    let mut session = Session::new("s1".to_string());
    let script = vec![
        tool_turn(
            vec![
                ("c1", "calculator", "{\"operation\":\"add\",\"a\":1,\"b\":2}"),
                ("c2", "calculator", "{\"operation\":\"multiply\",\"a\":3,\"b\":4}"),
            ],
            vec![Ok("3"), Ok("12")],
        ),
        tool_turn(
            vec![("c3", "calculator", "{\"operation\":\"subtract\",\"a\":9,\"b\":4}")],
            vec![Ok("5")],
        ),
        end_turn(Some("all done")),
    ];
    let result = agent.run(&mut session, "compute", &script).unwrap();
    assert_eq!(result, "all done");
    let messages = session.get_messages();
    assert_eq!(messages.len(), 6);
    assert_eq!(messages[0], Message { role: Role::User, content: "compute".to_string() });
    assert_eq!(
        messages[1],
        Message {
            role: Role::Assistant,
            content: "Using tool 'calculator' with input: {\"operation\":\"add\",\"a\":1,\"b\":2}\n\
                      Using tool 'calculator' with input: {\"operation\":\"multiply\",\"a\":3,\"b\":4}"
                .to_string(),
        }
    );
    assert_eq!(
        messages[2],
        Message {
            role: Role::User,
            content: "Tool 'calculator' returned: 3\nTool 'calculator' returned: 12".to_string(),
        }
    );
    assert_eq!(
        messages[3],
        Message {
            role: Role::Assistant,
            content: "Using tool 'calculator' with input: {\"operation\":\"subtract\",\"a\":9,\"b\":4}"
                .to_string(),
        }
    );
    assert_eq!(
        messages[4],
        Message { role: Role::User, content: "Tool 'calculator' returned: 5".to_string() }
    );
    assert_eq!(messages[5], Message { role: Role::Assistant, content: "all done".to_string() });
}

#[test]
fn endless_tool_use_stops_at_default_iteration_bound() {
    let agent = Agent::new(calculator_registry(), None);
    let mut session = Session::new("s1".to_string());
    let turn = || tool_turn(vec![("c", "calculator", "{}")], vec![Ok("0")]);
    let script: Vec<Turn> = (0..12).map(|_| turn()).collect();
    let result = agent.run(&mut session, "loop", &script).unwrap();
    assert_eq!(result, "Agent reached max iterations (10)");
    // one prompt plus two messages per iteration, and not one more
    assert_eq!(session.get_messages().len(), 1 + 2 * 10);
}

#[test]
fn endless_tool_use_stops_at_configured_bound() {
    let agent = Agent::new(calculator_registry(), None).with_max_iterations(3);
    let mut session = Session::new("s1".to_string());
    let turn = || tool_turn(vec![("c", "calculator", "{}")], vec![Ok("0")]);
    let script: Vec<Turn> = (0..5).map(|_| turn()).collect();
    let result = agent.run(&mut session, "loop", &script).unwrap();
    assert_eq!(result, "Agent reached max iterations (3)");
    assert_eq!(session.get_messages().len(), 1 + 2 * 3);
}

#[test]
fn unregistered_tool_fails_with_tool_not_found() {
    let agent = Agent::new(calculator_registry(), None);
    let mut session = Session::new("s1".to_string());
    let script = vec![
        tool_turn(vec![("c1", "compass", "{}")], vec![Ok("north")]),
        end_turn(Some("never reached")),
    ];
    let err = agent.run(&mut session, "go", &script).unwrap_err();
    assert_eq!(err, AgentError::ToolNotFound("compass".to_string()));
    // nothing of the failed turn was recorded
    assert_eq!(session.get_messages().len(), 1);
}

#[test]
fn failed_run_ignores_later_turns() {
    let agent = Agent::new(calculator_registry(), None);
    let failing = || tool_turn(vec![("c1", "compass", "{}")], vec![Ok("north")]);
    let mut s1 = Session::new("a".to_string());
    let mut s2 = Session::new("a".to_string());
    let short = vec![failing()];
    let long = vec![failing(), end_turn(Some("extra")), end_turn(Some("more"))];
    let e1 = agent.run(&mut s1, "go", &short).unwrap_err();
    let e2 = agent.run(&mut s2, "go", &long).unwrap_err();
    assert_eq!(e1, e2);
    assert_eq!(s1.get_messages(), s2.get_messages());
}

#[test]
fn division_by_zero_tool_error_aborts_run() {
    let agent = Agent::new(calculator_registry(), None);
    let mut session = Session::new("s1".to_string());
    let script = vec![
        tool_turn(
            vec![("c1", "calculator", "{\"operation\":\"divide\",\"a\":10,\"b\":0}")],
            vec![Err("Cannot divide by zero")],
        ),
        end_turn(Some("never reached")),
    ];
    let err = agent.run(&mut session, "divide ten by zero", &script).unwrap_err();
    assert_eq!(
        err,
        AgentError::ToolExecutionError {
            tool_name: "calculator".to_string(),
            cause: "Cannot divide by zero".to_string(),
        }
    );
}

#[test]
fn tool_use_without_calls_is_reported_as_text() {
    let agent = Agent::new(calculator_registry(), None);
    let mut session = Session::new("s1".to_string());
    let script = vec![tool_turn(vec![], vec![])];
    let result = agent.run(&mut session, "hi", &script).unwrap();
    assert_eq!(result, "Agent wanted to use tools but didn't specify any");
    assert_eq!(session.get_messages().len(), 1);
}

#[test]
fn max_tokens_is_reported_as_text() {
    let agent = Agent::new(ToolRegistry::new(), None);
    let mut session = Session::new("s1".to_string());
    let script = vec![Turn {
        response: CompletionResponse {
            text: Some("truncated...".to_string()),
            tool_calls: Vec::new(),
            stop_reason: StopReason::MaxTokens,
        },
        outcomes: Vec::new(),
    }];
    let result = agent.run(&mut session, "hi", &script).unwrap();
    assert_eq!(result, "Agent hit max tokens limit");
}

#[test]
fn content_filter_and_error_stops_are_named() {
    for (stop, expected) in [
        (StopReason::ContentFilter, "Agent stopped with reason: ContentFilter"),
        (StopReason::Error, "Agent stopped with reason: Error"),
    ] {
        let agent = Agent::new(ToolRegistry::new(), None);
        let mut session = Session::new("s1".to_string());
        let script = vec![Turn {
            response: CompletionResponse {
                text: None,
                tool_calls: Vec::new(),
                stop_reason: stop,
            },
            outcomes: Vec::new(),
        }];
        let result = agent.run(&mut session, "hi", &script).unwrap();
        assert_eq!(result, expected);
    }
}

#[test]
fn exhausted_transcript_is_a_provider_error() {
    let agent = Agent::new(calculator_registry(), None);
    let mut session = Session::new("s1".to_string());
    let script = vec![tool_turn(vec![("c", "calculator", "{}")], vec![Ok("0")])];
    let err = agent.run(&mut session, "hi", &script).unwrap_err();
    assert_eq!(err, AgentError::ProviderError("provider returned no response".to_string()));
}
