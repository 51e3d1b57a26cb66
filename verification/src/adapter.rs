//! The dispatch adapter: wraps one router into a uniform per-request
//! entry point. It validates the capability category against the
//! descriptor, routes to the matching router method, and translates
//! typed results and errors into the protocol's representation,
//! preserving the distinguishing message.

use vstd::prelude::*;
use crate::errors::{PromptError, ResourceError, ToolError};
use crate::router::{prompt_listed, resource_listed, tool_listed, Router};
use crate::value::{contents_view, Content, JsonValue};

verus! {

/// The closed set of capability categories a request may name.
#[derive(Clone, Copy, Debug, PartialEq, Eq, Structural)]
pub enum Category {
    Tool,
    Resource,
    Prompt,
}

/// One inbound request: a category, an identifier (name or uri), and
/// an optional structured argument payload.
#[derive(Debug)]
pub struct InvocationRequest {
    pub category: Category,
    pub identifier: String,
    pub arguments: Option<JsonValue>,
}

/// One successful response payload, per category.
#[derive(Debug)]
pub enum InvocationSuccess {
    /// The content items a tool produced.
    ToolContent(Vec<Content>),
    /// The textual body of a resource.
    ResourceText(String),
    /// The raw template string of a prompt.
    PromptTemplate(String),
}

/// The protocol's error representation: a stable kind tag and the
/// distinguishing message.
#[derive(Debug)]
pub struct ProtocolError {
    pub kind: String,
    pub message: String,
}

/// Kind tag of an unresolved identifier.
pub open spec fn not_found_kind() -> Seq<char> {
    "not_found"@
}

/// Kind tag of a request into a category the descriptor leaves
/// disabled.
pub open spec fn capability_disabled_kind() -> Seq<char> {
    "capability_disabled"@
}

/// Kind tag of a tool-specific runtime failure.
pub open spec fn execution_failure_kind() -> Seq<char> {
    "execution_failure"@
}

/// The argument payload a request hands to a tool: its own, or the
/// empty payload `null` when it carries none.
pub open spec fn request_arguments(request: InvocationRequest) -> JsonValue {
    match request.arguments {
        Some(v) => v,
        None => JsonValue::Null,
    }
}

/// A request refused before any registry lookup because its category
/// is disabled; the message names the category.
pub open spec fn capability_refused(r: Result<InvocationSuccess, ProtocolError>, category: Seq<char>) -> bool {
    r matches Err(e) && e.kind@ == capability_disabled_kind() && e.message@ == category
}

/// What a completed tool dispatch must look like: content for a listed
/// name (re-encoded in shape only), `not_found` carrying the
/// identifier verbatim for an absent one, `execution_failure` only for
/// a listed one.
pub open spec fn tool_dispatch_post<R: Router>(
    router: R,
    identifier: Seq<char>,
    arguments: JsonValue,
    r: Result<InvocationSuccess, ProtocolError>,
) -> bool {
    match r {
        Ok(s) => s matches InvocationSuccess::ToolContent(c)
            && tool_listed(router.spec_tools(), identifier)
            && router.tool_success(identifier, arguments, contents_view(c@)),
        Err(e) => if tool_listed(router.spec_tools(), identifier) {
            e.kind@ == execution_failure_kind()
        } else {
            e.kind@ == not_found_kind() && e.message@ == identifier
        },
    }
}

/// What a completed resource dispatch must look like: the resource's
/// text for a listed uri, `not_found` carrying the uri verbatim
/// otherwise.
pub open spec fn resource_dispatch_post<R: Router>(
    router: R,
    identifier: Seq<char>,
    r: Result<InvocationSuccess, ProtocolError>,
) -> bool {
    match r {
        Ok(s) => s matches InvocationSuccess::ResourceText(t)
            && resource_listed(router.spec_resources(), identifier)
            && router.resource_success(identifier, t@),
        Err(e) => !resource_listed(router.spec_resources(), identifier)
            && e.kind@ == not_found_kind() && e.message@ == identifier,
    }
}

/// What a completed prompt dispatch must look like: the raw template
/// for a listed name, `not_found` carrying the name verbatim
/// otherwise.
pub open spec fn prompt_dispatch_post<R: Router>(
    router: R,
    identifier: Seq<char>,
    r: Result<InvocationSuccess, ProtocolError>,
) -> bool {
    match r {
        Ok(s) => s matches InvocationSuccess::PromptTemplate(t)
            && prompt_listed(router.spec_prompts(), identifier)
            && router.prompt_success(identifier, t@),
        Err(e) => !prompt_listed(router.spec_prompts(), identifier)
            && e.kind@ == not_found_kind() && e.message@ == identifier,
    }
}

/// Translates a tool result into the protocol representation: success
/// payloads unchanged in content, errors mapped to a kind tag with the
/// distinguishing message preserved.
pub fn translate_tool_result(inner: Result<Vec<Content>, ToolError>) -> (r: Result<InvocationSuccess, ProtocolError>)
    ensures
        match inner {
            Ok(c) => r == Ok::<InvocationSuccess, ProtocolError>(InvocationSuccess::ToolContent(c)),
            Err(ToolError::NotFound(m)) => r matches Err(e) && e.kind@ == not_found_kind()
                && e.message@ == m@,
            Err(ToolError::ExecutionFailure(d)) => r matches Err(e)
                && e.kind@ == execution_failure_kind() && e.message@ == d@,
        },
{
    match inner {
        Ok(c) => Ok(InvocationSuccess::ToolContent(c)),
        Err(ToolError::NotFound(m)) => Err(ProtocolError {
            kind: "not_found".to_owned(),
            message: m,
        }),
        Err(ToolError::ExecutionFailure(d)) => Err(ProtocolError {
            kind: "execution_failure".to_owned(),
            message: d,
        }),
    }
}

/// Translates a resource result into the protocol representation.
pub fn translate_resource_result(inner: Result<String, ResourceError>) -> (r: Result<InvocationSuccess, ProtocolError>)
    ensures
        match inner {
            Ok(t) => r == Ok::<InvocationSuccess, ProtocolError>(InvocationSuccess::ResourceText(t)),
            Err(ResourceError::NotFound(m)) => r matches Err(e) && e.kind@ == not_found_kind()
                && e.message@ == m@,
        },
{
    match inner {
        Ok(t) => Ok(InvocationSuccess::ResourceText(t)),
        Err(ResourceError::NotFound(m)) => Err(ProtocolError {
            kind: "not_found".to_owned(),
            message: m,
        }),
    }
}

/// Translates a prompt result into the protocol representation.
pub fn translate_prompt_result(inner: Result<String, PromptError>) -> (r: Result<InvocationSuccess, ProtocolError>)
    ensures
        match inner {
            Ok(t) => r == Ok::<InvocationSuccess, ProtocolError>(InvocationSuccess::PromptTemplate(t)),
            Err(PromptError::NotFound(m)) => r matches Err(e) && e.kind@ == not_found_kind()
                && e.message@ == m@,
        },
{
    match inner {
        Ok(t) => Ok(InvocationSuccess::PromptTemplate(t)),
        Err(PromptError::NotFound(m)) => Err(ProtocolError {
            kind: "not_found".to_owned(),
            message: m,
        }),
    }
}

/// Wraps one router, taken by ownership, into the uniform per-request
/// entry point the server runtime drives. It keeps no cross-request
/// state.
pub struct DispatchAdapter<R> {
    router: R,
}

impl<R: Router> DispatchAdapter<R> {
    /// The wrapped router.
    pub closed spec fn spec_router(&self) -> R {
        self.router
    }

    /// Wraps a router.
    pub fn new(router: R) -> (a: DispatchAdapter<R>)
        ensures
            a.spec_router() == router,
    {
        DispatchAdapter { router }
    }

    /// A borrow of the wrapped router, for session negotiation (name,
    /// instructions, capability descriptor).
    pub fn router(&self) -> (r: &R)
        ensures
            r == self.spec_router(),
    {
        &self.router
    }

    /// Handles one inbound request: validates that the category is
    /// enabled before touching any registry, dispatches to the router,
    /// and translates the outcome.
    pub fn handle(&self, request: InvocationRequest) -> (r: Result<InvocationSuccess, ProtocolError>)
        ensures
            ({
                let caps = self.spec_router().spec_capabilities();
                match request.category {
                    Category::Tool => if caps.tools_enabled {
                        tool_dispatch_post(self.spec_router(), request.identifier@, request_arguments(request), r)
                    } else {
                        capability_refused(r, "tools"@)
                    },
                    Category::Resource => if caps.spec_resources_active() {
                        resource_dispatch_post(self.spec_router(), request.identifier@, r)
                    } else {
                        capability_refused(r, "resources"@)
                    },
                    Category::Prompt => if caps.prompts_enabled {
                        prompt_dispatch_post(self.spec_router(), request.identifier@, r)
                    } else {
                        capability_refused(r, "prompts"@)
                    },
                }
            }),
    {
        let caps = self.router.capabilities();
        match request.category {
            Category::Tool => {
                if !caps.tools_enabled {
                    return Err(ProtocolError {
                        kind: "capability_disabled".to_owned(),
                        message: "tools".to_owned(),
                    });
                }
                let null_arguments = JsonValue::Null;
                let arguments = match &request.arguments {
                    Some(v) => v,
                    None => &null_arguments,
                };
                let inner = self.router.call_tool(request.identifier.as_str(), arguments);
                translate_tool_result(inner)
            },
            Category::Resource => {
                if !caps.resources_active() {
                    return Err(ProtocolError {
                        kind: "capability_disabled".to_owned(),
                        message: "resources".to_owned(),
                    });
                }
                let inner = self.router.read_resource(request.identifier.as_str());
                translate_resource_result(inner)
            },
            Category::Prompt => {
                if !caps.prompts_enabled {
                    return Err(ProtocolError {
                        kind: "capability_disabled".to_owned(),
                        message: "prompts".to_owned(),
                    });
                }
                let inner = self.router.get_prompt(request.identifier.as_str());
                translate_prompt_result(inner)
            },
        }
    }
}

} // verus!
