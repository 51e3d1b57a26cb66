//! The concrete server personality: a router exposing one hello-world
//! tool and one greeting prompt, with an empty resource registry.

use vstd::prelude::*;
use crate::capabilities::{CapabilitiesBuilder, CapabilityDescriptor, ResourceOptions};
use crate::errors::{PromptError, ResourceError, ToolError};
use crate::registry::{Prompt, PromptArgument, PromptArgumentView, PromptView, Resource, ResourceView, Tool, ToolView};
use crate::router::{prompts_views, resources_views, tools_views, Router};
use crate::value::{contents_view, lemma_fields_view_index, lemma_fields_view_len, Content, ContentView, JsonValue, JsonView};

verus! {

/// The shape of the hello-world tool's input schema: an object schema
/// with no properties and no required arguments.
pub open spec fn hello_schema_view() -> JsonView {
    JsonView::Object(
        seq![
            ("type"@, JsonView::Text("object"@)),
            ("properties"@, JsonView::Object(Seq::empty())),
            ("required"@, JsonView::Array(Seq::empty())),
        ],
    )
}

/// The metadata of the single listed tool.
pub open spec fn hello_tool_view() -> ToolView {
    ToolView {
        name: "hello_world"@,
        description: "A simple hello world tool"@,
        input_schema: hello_schema_view(),
    }
}

/// The metadata of the single listed prompt.
pub open spec fn hello_prompt_view() -> PromptView {
    PromptView {
        name: "hello_username"@,
        description: Some("A prompt that greets the user by name"@),
        arguments: seq![
            PromptArgumentView {
                name: "username"@,
                description: Some("The name of the user to greet"@),
                required: true,
            },
        ],
    }
}

/// A stateless router; its registries are fixed at construction and
/// immutable for the life of the process.
#[derive(Clone, Copy, Debug)]
pub struct KnowledgeBaeRouter;

impl KnowledgeBaeRouter {
    /// Builds the router.
    pub fn new() -> (r: KnowledgeBaeRouter) {
        KnowledgeBaeRouter
    }
}

impl Router for KnowledgeBaeRouter {
    open spec fn spec_name(&self) -> Seq<char> {
        "knowledge-bae"@
    }

    open spec fn spec_instructions(&self) -> Seq<char> {
        "Knowledge Bae MCP Server - A tool for AI agents to ingest documentation from local git repositories"@
    }

    open spec fn spec_capabilities(&self) -> CapabilityDescriptor {
        CapabilityDescriptor {
            tools_enabled: true,
            resources_enabled: Some(ResourceOptions { subscribe: false, list_changed: false }),
            prompts_enabled: true,
        }
    }

    open spec fn spec_tools(&self) -> Seq<ToolView> {
        seq![hello_tool_view()]
    }

    open spec fn spec_resources(&self) -> Seq<ResourceView> {
        Seq::empty()
    }

    open spec fn spec_prompts(&self) -> Seq<PromptView> {
        seq![hello_prompt_view()]
    }

    open spec fn tool_success(&self, name: Seq<char>, arguments: JsonValue, content: Seq<ContentView>) -> bool {
        name == "hello_world"@ && content == seq![
            ContentView::Text("Hello World from the tool!"@),
        ]
    }

    open spec fn resource_success(&self, uri: Seq<char>, text: Seq<char>) -> bool {
        false
    }

    open spec fn prompt_success(&self, name: Seq<char>, template: Seq<char>) -> bool {
        name == "hello_username"@ && template == "Hello {username}"@
    }

    fn name(&self) -> (r: String) {
        "knowledge-bae".to_owned()
    }

    fn instructions(&self) -> (r: String) {
        "Knowledge Bae MCP Server - A tool for AI agents to ingest documentation from local git repositories".to_owned()
    }

    fn capabilities(&self) -> (c: CapabilityDescriptor) {
        CapabilitiesBuilder::new()
            .with_tools(true)
            .with_resources(false, false)
            .with_prompts(true)
            .build()
    }

    fn list_tools(&self) -> (r: Vec<Tool>) {
        let mut fields: Vec<(String, JsonValue)> = Vec::new();
        fields.push(("type".to_owned(), JsonValue::Text("object".to_owned())));
        fields.push(("properties".to_owned(), JsonValue::Object(Vec::new())));
        fields.push(("required".to_owned(), JsonValue::Array(Vec::new())));
        let schema = JsonValue::Object(fields);
        proof {
            lemma_fields_view_len(schema->Object_0@);
            lemma_fields_view_index(schema->Object_0@, 0);
            lemma_fields_view_index(schema->Object_0@, 1);
            lemma_fields_view_index(schema->Object_0@, 2);
            assert(schema@ matches JsonView::Object(f) && f =~= hello_schema_view()->Object_0);
        }
        let tool = Tool::new(
            "hello_world".to_owned(),
            "A simple hello world tool".to_owned(),
            schema,
        );
        let mut r: Vec<Tool> = Vec::new();
        r.push(tool);
        proof {
            assert(tool@ =~= hello_tool_view());
            assert(tools_views(r@) =~= self.spec_tools());
        }
        r
    }

    fn list_resources(&self) -> (r: Vec<Resource>) {
        let r: Vec<Resource> = Vec::new();
        proof {
            assert(resources_views(r@) =~= self.spec_resources());
        }
        r
    }

    fn list_prompts(&self) -> (r: Vec<Prompt>) {
        let mut args: Vec<PromptArgument> = Vec::new();
        args.push(
            PromptArgument {
                name: "username".to_owned(),
                description: Some("The name of the user to greet".to_owned()),
                required: true,
            },
        );
        let p = Prompt::new(
            "hello_username".to_owned(),
            Some("A prompt that greets the user by name".to_owned()),
            args,
        );
        let mut r: Vec<Prompt> = Vec::new();
        r.push(p);
        proof {
            assert(p@.arguments =~= hello_prompt_view().arguments);
            assert(p@ =~= hello_prompt_view());
            assert(prompts_views(r@) =~= self.spec_prompts());
        }
        r
    }

    fn call_tool(&self, name: &str, arguments: &JsonValue) -> (r: Result<Vec<Content>, ToolError>)
        ensures
            name@ == "hello_world"@ ==> r is Ok,
    {
        let q = name.to_owned();
        let hello = "hello_world".to_owned();
        if q == hello {
            let mut c: Vec<Content> = Vec::new();
            c.push(Content::Text("Hello World from the tool!".to_owned()));
            proof {
                assert(self.spec_tools()[0].name == name@);
                assert(contents_view(c@) =~= seq![ContentView::Text("Hello World from the tool!"@)]);
            }
            Ok(c)
        } else {
            proof {
                assert forall|i: int| 0 <= i < self.spec_tools().len() implies self.spec_tools()[i].name != name@ by {
                    assert(self.spec_tools()[i] == hello_tool_view());
                }
            }
            Err(ToolError::NotFound(q))
        }
    }

    fn read_resource(&self, uri: &str) -> (r: Result<String, ResourceError>)
        ensures
            r matches Err(ResourceError::NotFound(m)) && m@ == uri@,
    {
        Err(ResourceError::NotFound(uri.to_owned()))
    }

    fn get_prompt(&self, name: &str) -> (r: Result<String, PromptError>)
        ensures
            name@ == "hello_username"@ ==> r is Ok,
    {
        let q = name.to_owned();
        let hello = "hello_username".to_owned();
        if q == hello {
            proof {
                assert(self.spec_prompts()[0].name == name@);
            }
            Ok("Hello {username}".to_owned())
        } else {
            proof {
                assert forall|i: int| 0 <= i < self.spec_prompts().len() implies self.spec_prompts()[i].name != name@ by {
                    assert(self.spec_prompts()[i] == hello_prompt_view());
                }
            }
            Err(PromptError::NotFound(q))
        }
    }
}

} // verus!
