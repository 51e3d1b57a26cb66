//! Registry entities: the static metadata a router lists for each
//! capability category — tools, resources, and prompts.

use vstd::prelude::*;
use crate::value::{JsonValue, JsonView, duplicate_value};

verus! {

/// A named, schema-described callable action.
#[derive(Debug)]
pub struct Tool {
    /// Unique identifier within the tool registry.
    pub name: String,
    /// Human-readable description.
    pub description: String,
    /// Structured schema describing the accepted arguments.
    pub input_schema: JsonValue,
}

/// The mathematical shape of a tool's metadata.
#[verifier::ext_equal]
pub struct ToolView {
    pub name: Seq<char>,
    pub description: Seq<char>,
    pub input_schema: JsonView,
}

impl View for Tool {
    type V = ToolView;

    open spec fn view(&self) -> ToolView {
        ToolView { name: self.name@, description: self.description@, input_schema: self.input_schema@ }
    }
}

impl Tool {
    /// Builds a tool from its metadata.
    pub fn new(name: String, description: String, input_schema: JsonValue) -> (r: Tool)
        ensures
            r@ == (ToolView { name: name@, description: description@, input_schema: input_schema@ }),
    {
        Tool { name, description, input_schema }
    }

    /// Copies the metadata; the copy has the same shape.
    pub fn duplicate(&self) -> (r: Tool)
        ensures
            r@ == self@,
    {
        Tool {
            name: self.name.clone(),
            description: self.description.clone(),
            input_schema: duplicate_value(&self.input_schema),
        }
    }
}

/// A URI-addressed readable artifact.
#[derive(Debug)]
pub struct Resource {
    /// Unique identifier within the resource registry.
    pub uri: String,
    /// Optional human-readable metadata.
    pub metadata: Option<String>,
}

/// The mathematical shape of a resource's metadata.
#[verifier::ext_equal]
pub struct ResourceView {
    pub uri: Seq<char>,
    pub metadata: Option<Seq<char>>,
}

impl View for Resource {
    type V = ResourceView;

    open spec fn view(&self) -> ResourceView {
        ResourceView {
            uri: self.uri@,
            metadata: match self.metadata {
                Some(m) => Some(m@),
                None => None,
            },
        }
    }
}

impl Resource {
    /// Builds a resource from its metadata.
    pub fn new(uri: String, metadata: Option<String>) -> (r: Resource)
        ensures
            r.uri@ == uri@,
            r.metadata == metadata,
    {
        Resource { uri, metadata }
    }

    /// Copies the metadata; the copy has the same shape.
    pub fn duplicate(&self) -> (r: Resource)
        ensures
            r@ == self@,
    {
        Resource {
            uri: self.uri.clone(),
            metadata: match &self.metadata {
                Some(m) => Some(m.clone()),
                None => None,
            },
        }
    }
}

/// One declared argument of a prompt.
#[derive(Debug)]
pub struct PromptArgument {
    pub name: String,
    pub description: Option<String>,
    pub required: bool,
}

/// The mathematical shape of a prompt argument.
#[verifier::ext_equal]
pub struct PromptArgumentView {
    pub name: Seq<char>,
    pub description: Option<Seq<char>>,
    pub required: bool,
}

impl View for PromptArgument {
    type V = PromptArgumentView;

    open spec fn view(&self) -> PromptArgumentView {
        PromptArgumentView {
            name: self.name@,
            description: match self.description {
                Some(d) => Some(d@),
                None => None,
            },
            required: self.required,
        }
    }
}

impl PromptArgument {
    /// Copies the argument declaration; the copy has the same shape.
    pub fn duplicate(&self) -> (r: PromptArgument)
        ensures
            r@ == self@,
    {
        PromptArgument {
            name: self.name.clone(),
            description: match &self.description {
                Some(d) => Some(d.clone()),
                None => None,
            },
            required: self.required,
        }
    }
}

/// A named, argument-parameterized template string.
#[derive(Debug)]
pub struct Prompt {
    /// Unique identifier within the prompt registry.
    pub name: String,
    /// Optional human-readable description.
    pub description: Option<String>,
    /// Ordered declared arguments.
    pub arguments: Vec<PromptArgument>,
}

/// The mathematical shape of a prompt's metadata.
#[verifier::ext_equal]
pub struct PromptView {
    pub name: Seq<char>,
    pub description: Option<Seq<char>>,
    pub arguments: Seq<PromptArgumentView>,
}

impl View for Prompt {
    type V = PromptView;

    open spec fn view(&self) -> PromptView {
        PromptView {
            name: self.name@,
            description: match self.description {
                Some(d) => Some(d@),
                None => None,
            },
            arguments: self.arguments@.map_values(|a: PromptArgument| a@),
        }
    }
}

impl Prompt {
    /// Builds a prompt from its metadata.
    pub fn new(name: String, description: Option<String>, arguments: Vec<PromptArgument>) -> (r: Prompt)
        ensures
            r.name@ == name@,
            r.description == description,
            r.arguments@ == arguments@,
    {
        Prompt { name, description, arguments }
    }

    /// Copies the metadata; the copy has the same shape.
    pub fn duplicate(&self) -> (r: Prompt)
        ensures
            r@ == self@,
    {
        let mut args: Vec<PromptArgument> = Vec::new();
        let mut i: usize = 0;
        while i < self.arguments.len()
            invariant
                i <= self.arguments@.len(),
                args@.len() == i,
                forall|j: int| 0 <= j < i ==> args@[j]@ == self.arguments@[j]@,
            decreases self.arguments@.len() - i,
        {
            let a = self.arguments[i].duplicate();
            args.push(a);
            i = i + 1;
        }
        let r = Prompt {
            name: self.name.clone(),
            description: match &self.description {
                Some(d) => Some(d.clone()),
                None => None,
            },
            arguments: args,
        };
        proof {
            assert(r@.arguments =~= self@.arguments);
            assert(r@ =~= self@);
        }
        r
    }
}

} // verus!
