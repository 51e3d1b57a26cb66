//! The router abstraction: a polymorphic capability core. A concrete
//! implementation supplies identity, the capability descriptor, the
//! three registries, and dispatch for each category.

use vstd::prelude::*;
use crate::capabilities::CapabilityDescriptor;
use crate::errors::{PromptError, ResourceError, ToolError};
use crate::registry::{Prompt, PromptView, Resource, ResourceView, Tool, ToolView};
use crate::value::{contents_view, Content, ContentView, JsonValue};

verus! {

/// The shapes of a sequence of tools, in order.
pub open spec fn tools_views(s: Seq<Tool>) -> Seq<ToolView> {
    s.map_values(|t: Tool| t@)
}

/// The shapes of a sequence of resources, in order.
pub open spec fn resources_views(s: Seq<Resource>) -> Seq<ResourceView> {
    s.map_values(|x: Resource| x@)
}

/// The shapes of a sequence of prompts, in order.
pub open spec fn prompts_views(s: Seq<Prompt>) -> Seq<PromptView> {
    s.map_values(|p: Prompt| p@)
}

/// Whether a tool with exactly this name is in the registry. Matching
/// is exact and case-sensitive.
pub open spec fn tool_listed(tools: Seq<ToolView>, name: Seq<char>) -> bool {
    exists|i: int| 0 <= i < tools.len() && tools[i].name == name
}

/// Whether a resource with exactly this uri is in the registry.
pub open spec fn resource_listed(resources: Seq<ResourceView>, uri: Seq<char>) -> bool {
    exists|i: int| 0 <= i < resources.len() && resources[i].uri == uri
}

/// Whether a prompt with exactly this name is in the registry.
pub open spec fn prompt_listed(prompts: Seq<PromptView>, name: Seq<char>) -> bool {
    exists|i: int| 0 <= i < prompts.len() && prompts[i].name == name
}

/// What every `call_tool` answer must satisfy: an absent name fails
/// with `NotFound` carrying the name verbatim; a listed name yields a
/// payload or a tool-specific failure, never `NotFound`.
pub open spec fn tool_call_post(tools: Seq<ToolView>, name: Seq<char>, r: Result<Vec<Content>, ToolError>) -> bool {
    match r {
        Ok(_) => tool_listed(tools, name),
        Err(ToolError::NotFound(m)) => !tool_listed(tools, name) && m@ == name,
        Err(ToolError::ExecutionFailure(_)) => tool_listed(tools, name),
    }
}

/// What every `read_resource` answer must satisfy: success exactly for
/// listed uris, `NotFound` carrying the uri verbatim otherwise.
pub open spec fn resource_read_post(resources: Seq<ResourceView>, uri: Seq<char>, r: Result<String, ResourceError>) -> bool {
    match r {
        Ok(_) => resource_listed(resources, uri),
        Err(ResourceError::NotFound(m)) => !resource_listed(resources, uri) && m@ == uri,
    }
}

/// What every `get_prompt` answer must satisfy: success exactly for
/// listed names, `NotFound` carrying the name verbatim otherwise.
pub open spec fn prompt_get_post(prompts: Seq<PromptView>, name: Seq<char>, r: Result<String, PromptError>) -> bool {
    match r {
        Ok(_) => prompt_listed(prompts, name),
        Err(PromptError::NotFound(m)) => !prompt_listed(prompts, name) && m@ == name,
    }
}

/// The capability-dispatch core a concrete server personality
/// implements. Registries are immutable: every listing and every
/// dispatch outcome is a function of the router value alone.
pub trait Router: Sized {
    /// Stable session identifier.
    spec fn spec_name(&self) -> Seq<char>;

    /// Static usage text shown to the remote agent.
    spec fn spec_instructions(&self) -> Seq<char>;

    /// The negotiated capability descriptor.
    spec fn spec_capabilities(&self) -> CapabilityDescriptor;

    /// The tool registry, in listing order.
    spec fn spec_tools(&self) -> Seq<ToolView>;

    /// The resource registry, in listing order.
    spec fn spec_resources(&self) -> Seq<ResourceView>;

    /// The prompt registry, in listing order.
    spec fn spec_prompts(&self) -> Seq<PromptView>;

    /// Which content payloads a successful invocation of tool `name`
    /// with these arguments may yield.
    spec fn tool_success(&self, name: Seq<char>, arguments: JsonValue, content: Seq<ContentView>) -> bool;

    /// Which texts a successful read of `uri` may yield.
    spec fn resource_success(&self, uri: Seq<char>, text: Seq<char>) -> bool;

    /// Which template strings a successful lookup of prompt `name` may
    /// yield.
    spec fn prompt_success(&self, name: Seq<char>, template: Seq<char>) -> bool;

    /// Stable human-readable session identifier; side-effect-free.
    fn name(&self) -> (r: String)
        ensures
            r@ == self.spec_name(),
    ;

    /// Static text describing purpose and usage.
    fn instructions(&self) -> (r: String)
        ensures
            r@ == self.spec_instructions(),
    ;

    /// The capability descriptor consumed during session negotiation.
    fn capabilities(&self) -> (c: CapabilityDescriptor)
        ensures
            c == self.spec_capabilities(),
    ;

    /// The full current tool registry snapshot, in order.
    fn list_tools(&self) -> (r: Vec<Tool>)
        ensures
            tools_views(r@) == self.spec_tools(),
    ;

    /// The full current resource registry snapshot, in order.
    fn list_resources(&self) -> (r: Vec<Resource>)
        ensures
            resources_views(r@) == self.spec_resources(),
    ;

    /// The full current prompt registry snapshot, in order.
    fn list_prompts(&self) -> (r: Vec<Prompt>)
        ensures
            prompts_views(r@) == self.spec_prompts(),
    ;

    /// Looks `name` up in the tool registry and executes the tool.
    fn call_tool(&self, name: &str, arguments: &JsonValue) -> (r: Result<Vec<Content>, ToolError>)
        ensures
            tool_call_post(self.spec_tools(), name@, r),
            r matches Ok(c) ==> self.tool_success(name@, *arguments, contents_view(c@)),
    ;

    /// Resolves `uri` against the resource registry and returns the
    /// resource's textual content.
    fn read_resource(&self, uri: &str) -> (r: Result<String, ResourceError>)
        ensures
            resource_read_post(self.spec_resources(), uri@, r),
            r matches Ok(t) ==> self.resource_success(uri@, t@),
    ;

    /// Resolves `name` against the prompt registry and returns the raw
    /// template string; argument substitution is the remote agent's
    /// responsibility.
    fn get_prompt(&self, name: &str) -> (r: Result<String, PromptError>)
        ensures
            prompt_get_post(self.spec_prompts(), name@, r),
            r matches Ok(t) ==> self.prompt_success(name@, t@),
    ;
}

/// A name drawn from the listed tools always resolves: the answer is
/// never `NotFound`.
pub proof fn lemma_listed_tool_resolves(tools: Seq<ToolView>, i: int, r: Result<Vec<Content>, ToolError>)
    requires
        0 <= i < tools.len(),
        tool_call_post(tools, tools[i].name, r),
    ensures
        !(r matches Err(ToolError::NotFound(_))),
{
    assert(tool_listed(tools, tools[i].name));
}

/// A uri drawn from the listed resources always resolves to its
/// content.
pub proof fn lemma_listed_resource_resolves(resources: Seq<ResourceView>, i: int, r: Result<String, ResourceError>)
    requires
        0 <= i < resources.len(),
        resource_read_post(resources, resources[i].uri, r),
    ensures
        r is Ok,
{
    assert(resource_listed(resources, resources[i].uri));
}

/// A name drawn from the listed prompts always resolves to a template.
pub proof fn lemma_listed_prompt_resolves(prompts: Seq<PromptView>, i: int, r: Result<String, PromptError>)
    requires
        0 <= i < prompts.len(),
        prompt_get_post(prompts, prompts[i].name, r),
    ensures
        r is Ok,
{
    assert(prompt_listed(prompts, prompts[i].name));
}

/// A tool name absent from the registry is answered `NotFound`, with
/// the identifier embedded verbatim.
pub proof fn lemma_unlisted_tool_not_found(tools: Seq<ToolView>, name: Seq<char>, r: Result<Vec<Content>, ToolError>)
    requires
        !tool_listed(tools, name),
        tool_call_post(tools, name, r),
    ensures
        r matches Err(ToolError::NotFound(m)) && m@ == name,
{
}

/// A uri absent from the registry is answered `NotFound`, with the
/// identifier embedded verbatim.
pub proof fn lemma_unlisted_resource_not_found(resources: Seq<ResourceView>, uri: Seq<char>, r: Result<String, ResourceError>)
    requires
        !resource_listed(resources, uri),
        resource_read_post(resources, uri, r),
    ensures
        r matches Err(ResourceError::NotFound(m)) && m@ == uri,
{
}

/// A prompt name absent from the registry is answered `NotFound`, with
/// the identifier embedded verbatim.
pub proof fn lemma_unlisted_prompt_not_found(prompts: Seq<PromptView>, name: Seq<char>, r: Result<String, PromptError>)
    requires
        !prompt_listed(prompts, name),
        prompt_get_post(prompts, name, r),
    ensures
        r matches Err(PromptError::NotFound(m)) && m@ == name,
{
}

/// The listing calls are idempotent: with no intervening state change,
/// two answers of the same listing call have equal view sequences,
/// since each is a function of the router value alone.
pub proof fn lemma_listing_idempotent<R: Router>(
    router: &R,
    tools1: Seq<ToolView>,
    tools2: Seq<ToolView>,
    resources1: Seq<ResourceView>,
    resources2: Seq<ResourceView>,
    prompts1: Seq<PromptView>,
    prompts2: Seq<PromptView>,
)
    requires
        tools1 == router.spec_tools(),
        tools2 == router.spec_tools(),
        resources1 == router.spec_resources(),
        resources2 == router.spec_resources(),
        prompts1 == router.spec_prompts(),
        prompts2 == router.spec_prompts(),
    ensures
        tools1 == tools2,
        resources1 == resources2,
        prompts1 == prompts2,
{
}

} // verus!
