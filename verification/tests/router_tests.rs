use mcp_router::errors::{PromptError, ResourceError, ToolError};
use mcp_router::knowledge_bae::KnowledgeBaeRouter;
use mcp_router::router::Router;
use mcp_router::value::{Content, JsonValue};

fn empty_arguments() -> JsonValue {
    let arguments = mcp_router::value::empty_object();
    match &arguments {
        JsonValue::Object(fields) => assert!(fields.is_empty()),
        _ => panic!("expected an empty object"),
    }
    arguments
}

#[test]
fn call_tool_hello_world_returns_greeting() {
    let router = KnowledgeBaeRouter::new();
    let result = router.call_tool("hello_world", &empty_arguments());
    let content = result.expect("hello_world must succeed");
    assert_eq!(content.len(), 1);
    match &content[0] {
        Content::Text(t) => assert_eq!(t, "Hello World from the tool!"),
        _ => panic!("expected a text content item"),
    }
}

#[test]
fn call_tool_nonexistent_is_not_found() {
    let router = KnowledgeBaeRouter::new();
    let result = router.call_tool("nonexistent", &empty_arguments());
    match result {
        Err(ToolError::NotFound(message)) => assert!(message.contains("nonexistent")),
        _ => panic!("expected NotFound"),
    }
}

#[test]
fn read_resource_on_empty_registry_is_not_found() {
    let router = KnowledgeBaeRouter::new();
    let result = router.read_resource("any-uri");
    match result {
        Err(ResourceError::NotFound(message)) => assert!(message.contains("any-uri")),
        _ => panic!("expected NotFound"),
    }
}

#[test]
fn get_prompt_hello_username_returns_raw_template() {
    let router = KnowledgeBaeRouter::new();
    let template = router.get_prompt("hello_username").expect("hello_username must resolve");
    assert_eq!(template, "Hello {username}");
}

#[test]
fn get_prompt_unknown_is_not_found() {
    let router = KnowledgeBaeRouter::new();
    let result = router.get_prompt("farewell");
    match result {
        Err(PromptError::NotFound(message)) => assert!(message.contains("farewell")),
        _ => panic!("expected NotFound"),
    }
}

#[test]
fn name_and_instructions_are_stable() {
    let router = KnowledgeBaeRouter::new();
    assert_eq!(router.name(), "knowledge-bae");
    assert_eq!(router.name(), router.name());
    assert!(router.instructions().starts_with("Knowledge Bae MCP Server"));
}

#[test]
fn capabilities_enable_tools_resources_and_prompts() {
    let router = KnowledgeBaeRouter::new();
    let caps = router.capabilities();
    assert!(caps.tools_enabled);
    let resource_options = caps.resources_enabled.expect("resources advertised");
    assert!(!resource_options.subscribe);
    assert!(!resource_options.list_changed);
    assert!(caps.prompts_enabled);
    assert_eq!(caps, router.capabilities());
}

#[test]
fn list_tools_exposes_hello_world_with_empty_schema() {
    let router = KnowledgeBaeRouter::new();
    let tools = router.list_tools();
    assert_eq!(tools.len(), 1);
    assert_eq!(tools[0].name, "hello_world");
    assert_eq!(tools[0].description, "A simple hello world tool");
    match &tools[0].input_schema {
        JsonValue::Object(fields) => {
            assert_eq!(fields.len(), 3);
            assert_eq!(fields[0].0, "type");
            match &fields[0].1 {
                JsonValue::Text(t) => assert_eq!(t, "object"),
                _ => panic!("expected a text field"),
            }
            assert_eq!(fields[1].0, "properties");
            match &fields[1].1 {
                JsonValue::Object(inner) => assert!(inner.is_empty()),
                _ => panic!("expected an object field"),
            }
            assert_eq!(fields[2].0, "required");
            match &fields[2].1 {
                JsonValue::Array(inner) => assert!(inner.is_empty()),
                _ => panic!("expected an array field"),
            }
        }
        _ => panic!("expected an object schema"),
    }
}

#[test]
fn list_resources_is_empty() {
    let router = KnowledgeBaeRouter::new();
    assert!(router.list_resources().is_empty());
}

#[test]
fn list_prompts_exposes_hello_username() {
    let router = KnowledgeBaeRouter::new();
    let prompts = router.list_prompts();
    assert_eq!(prompts.len(), 1);
    assert_eq!(prompts[0].name, "hello_username");
    assert_eq!(
        prompts[0].description.as_deref(),
        Some("A prompt that greets the user by name"),
    );
    assert_eq!(prompts[0].arguments.len(), 1);
    assert_eq!(prompts[0].arguments[0].name, "username");
    assert!(prompts[0].arguments[0].required);
}

#[test]
fn every_listed_tool_resolves() {
    let router = KnowledgeBaeRouter::new();
    for tool in router.list_tools() {
        let result = router.call_tool(&tool.name, &empty_arguments());
        assert!(!matches!(result, Err(ToolError::NotFound(_))));
    }
}

#[test]
fn every_listed_prompt_resolves() {
    let router = KnowledgeBaeRouter::new();
    for prompt in router.list_prompts() {
        assert!(router.get_prompt(&prompt.name).is_ok());
    }
}

#[test]
fn listing_calls_are_idempotent() {
    let router = KnowledgeBaeRouter::new();
    let first = router.list_tools();
    let second = router.list_tools();
    assert_eq!(first.len(), second.len());
    for (a, b) in first.iter().zip(second.iter()) {
        assert_eq!(a.name, b.name);
        assert_eq!(a.description, b.description);
    }
    assert_eq!(router.list_resources().len(), router.list_resources().len());
    let prompts_first = router.list_prompts();
    let prompts_second = router.list_prompts();
    assert_eq!(prompts_first.len(), prompts_second.len());
    for (a, b) in prompts_first.iter().zip(prompts_second.iter()) {
        assert_eq!(a.name, b.name);
        assert_eq!(a.description, b.description);
        assert_eq!(a.arguments.len(), b.arguments.len());
    }
}
