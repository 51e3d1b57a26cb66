//! Typed errors of the router's capability calls. All of them are
//! recoverable at the caller; none terminates the process.

use vstd::prelude::*;

verus! {

/// Failure of a tool invocation.
#[derive(Debug, PartialEq, Eq)]
pub enum ToolError {
    /// The requested tool name is not in the registry; carries that
    /// identifier verbatim.
    NotFound(String),
    /// Tool-specific runtime failure; carries a human-readable detail.
    ExecutionFailure(String),
}

/// Failure of a resource read.
#[derive(Debug, PartialEq, Eq)]
pub enum ResourceError {
    /// The requested uri is not in the registry; carries that
    /// identifier verbatim.
    NotFound(String),
}

/// Failure of a prompt lookup.
#[derive(Debug, PartialEq, Eq)]
pub enum PromptError {
    /// The requested prompt name is not in the registry; carries that
    /// identifier verbatim.
    NotFound(String),
}

} // verus!
