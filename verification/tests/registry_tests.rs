use axonerai::executor::{ToolExecutor, ToolResult};
use axonerai::errors::AgentError;
use axonerai::provider::{Tool, ToolCall};
use axonerai::tool::ToolRegistry;
use axonerai::tools::{Calculator, WebScrape, WebSearch};

fn tool(name: &str, description: &str) -> Tool {
    Tool {
        name: name.to_string(),
        description: description.to_string(),
        input_schema: "{}".to_string(),
    }
}

fn call(id: &str, name: &str) -> ToolCall {
    ToolCall { id: id.to_string(), name: name.to_string(), input: "{}".to_string() }
}

#[test]
fn register_get_and_list() {
    let mut registry = ToolRegistry::new();
    assert!(registry.get("calculator").is_none());
    registry.register(Calculator.declaration());
    registry.register(WebSearch.declaration());
    registry.register(WebScrape.declaration());
    assert_eq!(registry.get("calculator").unwrap().name, "calculator");
    assert_eq!(registry.get("WebSearch").unwrap().name, "WebSearch");
    assert!(registry.get("websearch").is_none());
    assert_eq!(
        registry.list_tools(),
        vec!["calculator".to_string(), "WebSearch".to_string(), "WebScrape".to_string()]
    );
}

#[test]
fn duplicate_registration_silently_overwrites() {
    let mut registry = ToolRegistry::new();
    registry.register(tool("calculator", "first"));
    registry.register(tool("other", "unrelated"));
    registry.register(tool("calculator", "second"));
    assert_eq!(registry.list_tools().len(), 2);
    assert_eq!(registry.get("calculator").unwrap().description, "second");
}

#[test]
fn declarations_for_backend_keep_registration_order() {
    let mut registry = ToolRegistry::new();
    registry.register(Calculator.declaration());
    registry.register(WebSearch.declaration());
    let declarations = registry.get_all_for_llm();
    assert_eq!(declarations.len(), 2);
    assert_eq!(declarations[0].name, "calculator");
    assert_eq!(
        declarations[0].description,
        "Perform basic arithmetic operations (add, subtract, multiply, divide)"
    );
    assert_eq!(declarations[1].name, "WebSearch");
}

#[test]
fn tool_declarations_have_expected_surface() {
    assert_eq!(Calculator.name(), "calculator");
    assert_eq!(WebSearch.name(), "WebSearch");
    assert_eq!(WebScrape.name(), "WebScrape");
    for schema in
        [Calculator.input_schema(), WebSearch.input_schema(), WebScrape.input_schema()]
    {
        assert!(serde_json::from_str::<serde_json::Value>(&schema).is_ok());
    }
    assert!(Calculator.input_schema().contains("\"divide\""));
    assert!(WebSearch.input_schema().contains("search_term"));
    assert!(WebScrape.input_schema().contains("links"));
}

#[test]
fn execute_resolves_and_correlates() {
    let mut registry = ToolRegistry::new();
    registry.register(Calculator.declaration());
    let executor = ToolExecutor::new(&registry);
    let r = executor.execute(&call("c9", "calculator"), Ok("42".to_string())).unwrap();
    assert_eq!(
        r,
        ToolResult {
            tool_call_id: "c9".to_string(),
            tool_name: "calculator".to_string(),
            result: "42".to_string(),
        }
    );
}

#[test]
fn execute_unknown_tool_is_tool_not_found() {
    let registry = ToolRegistry::new();
    let executor = ToolExecutor::new(&registry);
    let err = executor.execute(&call("c1", "compass"), Ok("north".to_string())).unwrap_err();
    assert_eq!(err, AgentError::ToolNotFound("compass".to_string()));
}

#[test]
fn execute_propagates_tool_failure() {
    let mut registry = ToolRegistry::new();
    registry.register(Calculator.declaration());
    let executor = ToolExecutor::new(&registry);
    let err = executor
        .execute(&call("c1", "calculator"), Err("Cannot divide by zero".to_string()))
        .unwrap_err();
    assert_eq!(
        err,
        AgentError::ToolExecutionError {
            tool_name: "calculator".to_string(),
            cause: "Cannot divide by zero".to_string(),
        }
    );
}

#[test]
fn execute_all_keeps_call_order() {
    let mut registry = ToolRegistry::new();
    registry.register(Calculator.declaration());
    registry.register(WebSearch.declaration());
    let executor = ToolExecutor::new(&registry);
    let calls = vec![call("c1", "calculator"), call("c2", "WebSearch")];
    let outcomes = vec![Ok("3".to_string()), Ok("links".to_string())];
    let results = executor.execute_all(&calls, &outcomes).unwrap();
    assert_eq!(results.len(), 2);
    assert_eq!(results[0].tool_call_id, "c1");
    assert_eq!(results[0].result, "3");
    assert_eq!(results[1].tool_call_id, "c2");
    assert_eq!(results[1].result, "links");
}

#[test]
fn execute_all_aborts_on_first_failure() {
    let mut registry = ToolRegistry::new();
    registry.register(Calculator.declaration());
    let executor = ToolExecutor::new(&registry);
    let calls = vec![call("c1", "calculator"), call("c2", "compass"), call("c3", "calculator")];
    let outcomes = vec![Ok("1".to_string()), Ok("north".to_string()), Ok("2".to_string())];
    let err = executor.execute_all(&calls, &outcomes).unwrap_err();
    assert_eq!(err, AgentError::ToolNotFound("compass".to_string()));
}
