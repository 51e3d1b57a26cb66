//! A registry-backed router: an arbitrary capability set fixed at
//! construction. Each listed tool carries the text its invocation
//! yields, each resource its body, each prompt its template. It shows
//! the dispatch core driving an arbitrary router implementation
//! uniformly.

use vstd::prelude::*;
use crate::capabilities::CapabilityDescriptor;
use crate::errors::{PromptError, ResourceError, ToolError};
use crate::registry::{Prompt, PromptView, Resource, ResourceView, Tool, ToolView};
use crate::router::{prompts_views, resources_views, tool_listed, tools_views, Router};
use crate::value::{contents_view, Content, ContentView, JsonValue};

verus! {

/// The shapes of tool entries: each tool's metadata with its reply
/// text.
pub open spec fn tool_entries_views(s: Seq<(Tool, String)>) -> Seq<(ToolView, Seq<char>)> {
    s.map_values(|e: (Tool, String)| (e.0@, e.1@))
}

/// The shapes of resource entries: each resource's metadata with its
/// body.
pub open spec fn resource_entries_views(s: Seq<(Resource, String)>) -> Seq<(ResourceView, Seq<char>)> {
    s.map_values(|e: (Resource, String)| (e.0@, e.1@))
}

/// The shapes of prompt entries: each prompt's metadata with its
/// template.
pub open spec fn prompt_entries_views(s: Seq<(Prompt, String)>) -> Seq<(PromptView, Seq<char>)> {
    s.map_values(|e: (Prompt, String)| (e.0@, e.1@))
}

/// A router whose registries and outcomes are plain data, fixed at
/// construction and immutable thereafter.
pub struct StaticRouter {
    name: String,
    instructions: String,
    capabilities: CapabilityDescriptor,
    tools: Vec<(Tool, String)>,
    resources: Vec<(Resource, String)>,
    prompts: Vec<(Prompt, String)>,
}

impl StaticRouter {
    /// The tool registry with each tool's reply text, shape for shape.
    pub closed spec fn spec_tool_entries(&self) -> Seq<(ToolView, Seq<char>)> {
        tool_entries_views(self.tools@)
    }

    /// The resource registry with each resource's body.
    pub closed spec fn spec_resource_entries(&self) -> Seq<(ResourceView, Seq<char>)> {
        resource_entries_views(self.resources@)
    }

    /// The prompt registry with each prompt's template.
    pub closed spec fn spec_prompt_entries(&self) -> Seq<(PromptView, Seq<char>)> {
        prompt_entries_views(self.prompts@)
    }

    /// Builds a router from its identity, descriptor, and registries.
    pub fn new(
        name: String,
        instructions: String,
        capabilities: CapabilityDescriptor,
        tools: Vec<(Tool, String)>,
        resources: Vec<(Resource, String)>,
        prompts: Vec<(Prompt, String)>,
    ) -> (r: StaticRouter)
        ensures
            r.spec_name() == name@,
            r.spec_instructions() == instructions@,
            r.spec_capabilities() == capabilities,
            r.spec_tool_entries() == tool_entries_views(tools@),
            r.spec_resource_entries() == resource_entries_views(resources@),
            r.spec_prompt_entries() == prompt_entries_views(prompts@),
    {
        StaticRouter { name, instructions, capabilities, tools, resources, prompts }
    }
}

impl Router for StaticRouter {
    closed spec fn spec_name(&self) -> Seq<char> {
        self.name@
    }

    closed spec fn spec_instructions(&self) -> Seq<char> {
        self.instructions@
    }

    closed spec fn spec_capabilities(&self) -> CapabilityDescriptor {
        self.capabilities
    }

    open spec fn spec_tools(&self) -> Seq<ToolView> {
        self.spec_tool_entries().map_values(|e: (ToolView, Seq<char>)| e.0)
    }

    open spec fn spec_resources(&self) -> Seq<ResourceView> {
        self.spec_resource_entries().map_values(|e: (ResourceView, Seq<char>)| e.0)
    }

    open spec fn spec_prompts(&self) -> Seq<PromptView> {
        self.spec_prompt_entries().map_values(|e: (PromptView, Seq<char>)| e.0)
    }

    open spec fn tool_success(&self, name: Seq<char>, arguments: JsonValue, content: Seq<ContentView>) -> bool {
        exists|i: int| 0 <= i < self.spec_tool_entries().len()
            && #[trigger] self.spec_tool_entries()[i].0.name == name
            && content == seq![ContentView::Text(self.spec_tool_entries()[i].1)]
    }

    open spec fn resource_success(&self, uri: Seq<char>, text: Seq<char>) -> bool {
        exists|i: int| 0 <= i < self.spec_resource_entries().len()
            && #[trigger] self.spec_resource_entries()[i].0.uri == uri
            && text == self.spec_resource_entries()[i].1
    }

    open spec fn prompt_success(&self, name: Seq<char>, template: Seq<char>) -> bool {
        exists|i: int| 0 <= i < self.spec_prompt_entries().len()
            && #[trigger] self.spec_prompt_entries()[i].0.name == name
            && template == self.spec_prompt_entries()[i].1
    }

    fn name(&self) -> (r: String) {
        self.name.clone()
    }

    fn instructions(&self) -> (r: String) {
        self.instructions.clone()
    }

    fn capabilities(&self) -> (c: CapabilityDescriptor) {
        self.capabilities
    }

    fn list_tools(&self) -> (r: Vec<Tool>) {
        let mut r: Vec<Tool> = Vec::new();
        let mut i: usize = 0;
        while i < self.tools.len()
            invariant
                i <= self.tools@.len(),
                r@.len() == i,
                forall|j: int| 0 <= j < i ==> r@[j]@ == self.tools@[j].0@,
            decreases self.tools@.len() - i,
        {
            let t = self.tools[i].0.duplicate();
            r.push(t);
            i = i + 1;
        }
        proof {
            assert(tools_views(r@) =~= self.spec_tools());
        }
        r
    }

    fn list_resources(&self) -> (r: Vec<Resource>) {
        let mut r: Vec<Resource> = Vec::new();
        let mut i: usize = 0;
        while i < self.resources.len()
            invariant
                i <= self.resources@.len(),
                r@.len() == i,
                forall|j: int| 0 <= j < i ==> r@[j]@ == self.resources@[j].0@,
            decreases self.resources@.len() - i,
        {
            let x = self.resources[i].0.duplicate();
            r.push(x);
            i = i + 1;
        }
        proof {
            assert(resources_views(r@) =~= self.spec_resources());
        }
        r
    }

    fn list_prompts(&self) -> (r: Vec<Prompt>) {
        let mut r: Vec<Prompt> = Vec::new();
        let mut i: usize = 0;
        while i < self.prompts.len()
            invariant
                i <= self.prompts@.len(),
                r@.len() == i,
                forall|j: int| 0 <= j < i ==> r@[j]@ == self.prompts@[j].0@,
            decreases self.prompts@.len() - i,
        {
            let p = self.prompts[i].0.duplicate();
            r.push(p);
            i = i + 1;
        }
        proof {
            assert(prompts_views(r@) =~= self.spec_prompts());
        }
        r
    }

    fn call_tool(&self, name: &str, arguments: &JsonValue) -> (r: Result<Vec<Content>, ToolError>)
        ensures
            tool_listed(self.spec_tools(), name@) ==> r is Ok,
    {
        let q = name.to_owned();
        let mut i: usize = 0;
        while i < self.tools.len()
            invariant
                i <= self.tools@.len(),
                q@ == name@,
                forall|j: int| 0 <= j < i ==> #[trigger] self.spec_tools()[j].name != name@,
            decreases self.tools@.len() - i,
        {
            if self.tools[i].0.name == q {
                let mut c: Vec<Content> = Vec::new();
                c.push(Content::Text(self.tools[i].1.clone()));
                proof {
                    assert(self.spec_tools()[i as int].name == name@);
                    assert(contents_view(c@) =~= seq![
                        ContentView::Text(self.spec_tool_entries()[i as int].1),
                    ]);
                }
                return Ok(c);
            }
            proof {
                assert(self.spec_tools()[i as int].name != name@);
            }
            i = i + 1;
        }
        Err(ToolError::NotFound(q))
    }

    fn read_resource(&self, uri: &str) -> (r: Result<String, ResourceError>) {
        let q = uri.to_owned();
        let mut i: usize = 0;
        while i < self.resources.len()
            invariant
                i <= self.resources@.len(),
                q@ == uri@,
                forall|j: int| 0 <= j < i ==> #[trigger] self.spec_resources()[j].uri != uri@,
            decreases self.resources@.len() - i,
        {
            if self.resources[i].0.uri == q {
                let t = self.resources[i].1.clone();
                proof {
                    assert(self.spec_resources()[i as int].uri == uri@);
                }
                return Ok(t);
            }
            proof {
                assert(self.spec_resources()[i as int].uri != uri@);
            }
            i = i + 1;
        }
        Err(ResourceError::NotFound(q))
    }

    fn get_prompt(&self, name: &str) -> (r: Result<String, PromptError>) {
        let q = name.to_owned();
        let mut i: usize = 0;
        while i < self.prompts.len()
            invariant
                i <= self.prompts@.len(),
                q@ == name@,
                forall|j: int| 0 <= j < i ==> #[trigger] self.spec_prompts()[j].name != name@,
            decreases self.prompts@.len() - i,
        {
            if self.prompts[i].0.name == q {
                let t = self.prompts[i].1.clone();
                proof {
                    assert(self.spec_prompts()[i as int].name == name@);
                }
                return Ok(t);
            }
            proof {
                assert(self.spec_prompts()[i as int].name != name@);
            }
            i = i + 1;
        }
        Err(PromptError::NotFound(q))
    }
}

} // verus!
