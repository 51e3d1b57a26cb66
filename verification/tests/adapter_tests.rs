use mcp_router::adapter::{Category, DispatchAdapter, InvocationRequest, InvocationSuccess};
use mcp_router::router::Router;
use mcp_router::capabilities::{CapabilitiesBuilder, CapabilityDescriptor, ResourceOptions};
use mcp_router::knowledge_bae::KnowledgeBaeRouter;
use mcp_router::registry::{Prompt, Resource, Tool};
use mcp_router::static_router::StaticRouter;
use mcp_router::value::{Content, JsonValue};

fn request(category: Category, identifier: &str) -> InvocationRequest {
    InvocationRequest {
        category,
        identifier: identifier.to_string(),
        arguments: Some(JsonValue::Object(Vec::new())),
    }
}

fn sample_registries() -> (Vec<(Tool, String)>, Vec<(Resource, String)>, Vec<(Prompt, String)>) {
    let tool = Tool::new(
        "echo".to_string(),
        "Replies with a fixed line".to_string(),
        JsonValue::Object(Vec::new()),
    );
    let resource = Resource::new("memo://note".to_string(), Some("a note".to_string()));
    let prompt = Prompt::new("greet".to_string(), None, Vec::new());
    (
        vec![(tool, "echo reply".to_string())],
        vec![(resource, "note body".to_string())],
        vec![(prompt, "Greetings, {who}".to_string())],
    )
}

fn enabled_descriptor() -> CapabilityDescriptor {
    CapabilityDescriptor {
        tools_enabled: true,
        resources_enabled: Some(ResourceOptions { subscribe: false, list_changed: false }),
        prompts_enabled: true,
    }
}

fn static_router(capabilities: CapabilityDescriptor) -> StaticRouter {
    let (tools, resources, prompts) = sample_registries();
    StaticRouter::new(
        "fixture".to_string(),
        "A registry-backed router".to_string(),
        capabilities,
        tools,
        resources,
        prompts,
    )
}

#[test]
fn handle_tool_request_returns_content() {
    let adapter = DispatchAdapter::new(KnowledgeBaeRouter::new());
    let outcome = adapter.handle(request(Category::Tool, "hello_world"));
    match outcome {
        Ok(InvocationSuccess::ToolContent(content)) => {
            assert_eq!(content.len(), 1);
            match &content[0] {
                Content::Text(t) => assert_eq!(t, "Hello World from the tool!"),
                _ => panic!("expected text content"),
            }
        }
        _ => panic!("expected tool content"),
    }
}

#[test]
fn handle_unknown_tool_is_not_found() {
    let adapter = DispatchAdapter::new(KnowledgeBaeRouter::new());
    let outcome = adapter.handle(request(Category::Tool, "nonexistent"));
    match outcome {
        Err(e) => {
            assert_eq!(e.kind, "not_found");
            assert!(e.message.contains("nonexistent"));
        }
        _ => panic!("expected a protocol error"),
    }
}

#[test]
fn handle_resource_request_on_empty_registry_is_not_found() {
    let adapter = DispatchAdapter::new(KnowledgeBaeRouter::new());
    let outcome = adapter.handle(InvocationRequest {
        category: Category::Resource,
        identifier: "any-uri".to_string(),
        arguments: None,
    });
    match outcome {
        Err(e) => {
            assert_eq!(e.kind, "not_found");
            assert_eq!(e.message, "any-uri");
        }
        _ => panic!("expected a protocol error"),
    }
}

#[test]
fn handle_prompt_request_returns_raw_template() {
    let adapter = DispatchAdapter::new(KnowledgeBaeRouter::new());
    let outcome = adapter.handle(InvocationRequest {
        category: Category::Prompt,
        identifier: "hello_username".to_string(),
        arguments: None,
    });
    match outcome {
        Ok(InvocationSuccess::PromptTemplate(t)) => assert_eq!(t, "Hello {username}"),
        _ => panic!("expected a prompt template"),
    }
}

#[test]
fn disabled_categories_fail_before_any_lookup() {
    let disabled = CapabilityDescriptor {
        tools_enabled: false,
        resources_enabled: None,
        prompts_enabled: false,
    };
    let adapter = DispatchAdapter::new(static_router(disabled));
    for (category, name) in [
        (Category::Tool, "echo"),
        (Category::Resource, "memo://note"),
        (Category::Prompt, "greet"),
    ] {
        let outcome = adapter.handle(request(category, name));
        match outcome {
            Err(e) => assert_eq!(e.kind, "capability_disabled"),
            _ => panic!("expected a capability_disabled error"),
        }
    }
}

#[test]
fn disabling_one_category_leaves_the_others_dispatchable() {
    let caps = CapabilityDescriptor {
        tools_enabled: false,
        resources_enabled: Some(ResourceOptions { subscribe: true, list_changed: false }),
        prompts_enabled: true,
    };
    let adapter = DispatchAdapter::new(static_router(caps));
    match adapter.handle(request(Category::Tool, "echo")) {
        Err(e) => {
            assert_eq!(e.kind, "capability_disabled");
            assert_eq!(e.message, "tools");
        }
        _ => panic!("expected a capability_disabled error"),
    }
    match adapter.handle(request(Category::Resource, "memo://note")) {
        Ok(InvocationSuccess::ResourceText(body)) => assert_eq!(body, "note body"),
        _ => panic!("expected the resource body"),
    }
    match adapter.handle(request(Category::Prompt, "greet")) {
        Ok(InvocationSuccess::PromptTemplate(t)) => assert_eq!(t, "Greetings, {who}"),
        _ => panic!("expected the prompt template"),
    }
}

#[test]
fn static_router_serves_canned_tool_reply() {
    let adapter = DispatchAdapter::new(static_router(enabled_descriptor()));
    match adapter.handle(request(Category::Tool, "echo")) {
        Ok(InvocationSuccess::ToolContent(content)) => {
            assert_eq!(content.len(), 1);
            match &content[0] {
                Content::Text(t) => assert_eq!(t, "echo reply"),
                _ => panic!("expected text content"),
            }
        }
        _ => panic!("expected tool content"),
    }
}

#[test]
fn static_router_unknown_identifiers_are_not_found_verbatim() {
    let adapter = DispatchAdapter::new(static_router(enabled_descriptor()));
    for (category, name) in [
        (Category::Tool, "missing-tool"),
        (Category::Resource, "memo://missing"),
        (Category::Prompt, "missing-prompt"),
    ] {
        match adapter.handle(request(category, name)) {
            Err(e) => {
                assert_eq!(e.kind, "not_found");
                assert_eq!(e.message, name);
            }
            _ => panic!("expected a not_found error"),
        }
    }
}

#[test]
fn static_router_lists_its_registries() {
    let router = static_router(enabled_descriptor());
    let tools = router.list_tools();
    assert_eq!(tools.len(), 1);
    assert_eq!(tools[0].name, "echo");
    let resources = router.list_resources();
    assert_eq!(resources.len(), 1);
    assert_eq!(resources[0].uri, "memo://note");
    assert_eq!(resources[0].metadata.as_deref(), Some("a note"));
    let prompts = router.list_prompts();
    assert_eq!(prompts.len(), 1);
    assert_eq!(prompts[0].name, "greet");
    assert_eq!(router.name(), "fixture");
}

#[test]
fn listing_copies_a_nested_schema_structurally() {
    let schema = JsonValue::Object(vec![
        ("type".to_string(), JsonValue::Text("object".to_string())),
        (
            "properties".to_string(),
            JsonValue::Object(vec![(
                "count".to_string(),
                JsonValue::Object(vec![("type".to_string(), JsonValue::Text("integer".to_string()))]),
            )]),
        ),
        (
            "examples".to_string(),
            JsonValue::Array(vec![JsonValue::Int(1), JsonValue::Bool(true), JsonValue::Null]),
        ),
    ]);
    let tool = Tool::new("count".to_string(), "Counts things".to_string(), schema);
    let router = StaticRouter::new(
        "nested".to_string(),
        "Registry with a nested schema".to_string(),
        enabled_descriptor(),
        vec![(tool, "counted".to_string())],
        Vec::new(),
        Vec::new(),
    );
    let tools = router.list_tools();
    assert_eq!(tools.len(), 1);
    match &tools[0].input_schema {
        JsonValue::Object(fields) => {
            assert_eq!(fields.len(), 3);
            match &fields[1].1 {
                JsonValue::Object(properties) => {
                    assert_eq!(properties.len(), 1);
                    assert_eq!(properties[0].0, "count");
                    match &properties[0].1 {
                        JsonValue::Object(inner) => match &inner[0].1 {
                            JsonValue::Text(t) => assert_eq!(t, "integer"),
                            _ => panic!("expected a text field"),
                        },
                        _ => panic!("expected an object field"),
                    }
                }
                _ => panic!("expected an object field"),
            }
            match &fields[2].1 {
                JsonValue::Array(items) => {
                    assert_eq!(items.len(), 3);
                    assert!(matches!(items[0], JsonValue::Int(1)));
                    assert!(matches!(items[1], JsonValue::Bool(true)));
                    assert!(matches!(items[2], JsonValue::Null));
                }
                _ => panic!("expected an array field"),
            }
        }
        _ => panic!("expected an object schema"),
    }
}

#[test]
fn builder_starts_disabled_and_toggles_each_category() {
    let empty = CapabilitiesBuilder::new().build();
    assert!(!empty.tools_enabled);
    assert!(empty.resources_enabled.is_none());
    assert!(!empty.prompts_enabled);

    let full = CapabilitiesBuilder::new()
        .with_tools(true)
        .with_resources(true, false)
        .with_prompts(true)
        .build();
    assert!(full.tools_enabled);
    let options = full.resources_enabled.expect("resources advertised");
    assert!(options.subscribe);
    assert!(!options.list_changed);
    assert!(full.prompts_enabled);

    let toggled_off = CapabilitiesBuilder::new().with_tools(true).with_tools(false).build();
    assert!(!toggled_off.tools_enabled);
}

#[test]
fn adapter_exposes_router_for_negotiation() {
    let adapter = DispatchAdapter::new(KnowledgeBaeRouter::new());
    assert_eq!(adapter.router().name(), "knowledge-bae");
    assert!(adapter.router().capabilities().tools_enabled);
}
