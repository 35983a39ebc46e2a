//! The error taxonomy of the runtime. Soft terminal outcomes (max tokens,
//! iteration bound, content filter) are ordinary text results, not errors;
//! only transport, lookup, execution and store failures appear here.

use vstd::prelude::*;

verus! {

/// A failure that aborts a run.
#[derive(Clone, Debug, PartialEq)]
pub enum AgentError {
    /// Transport failure or a malformed or non-success backend response.
    ProviderError(String),
    /// A tool call named a tool absent from the registry.
    ToolNotFound(String),
    /// A registered tool's own execution failed.
    ToolExecutionError { tool_name: String, cause: String },
    /// A session snapshot was missing or corrupt.
    SessionStoreError(String),
}

/// Model of an agent error.
pub enum AgentErrorModel {
    ProviderError(Seq<char>),
    ToolNotFound(Seq<char>),
    ToolExecutionError { tool_name: Seq<char>, cause: Seq<char> },
    SessionStoreError(Seq<char>),
}

impl View for AgentError {
    type V = AgentErrorModel;

    open spec fn view(&self) -> AgentErrorModel {
        match self {
            AgentError::ProviderError(d) => AgentErrorModel::ProviderError(d@),
            AgentError::ToolNotFound(n) => AgentErrorModel::ToolNotFound(n@),
            AgentError::ToolExecutionError { tool_name, cause } => {
                AgentErrorModel::ToolExecutionError { tool_name: tool_name@, cause: cause@ }
            },
            AgentError::SessionStoreError(d) => AgentErrorModel::SessionStoreError(d@),
        }
    }
}

} // verus!
