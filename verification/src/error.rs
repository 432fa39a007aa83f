//! The unified error type: every failure class of the library under one
//! roof, for callers that want a single error to match on.

use vstd::prelude::*;
use vstd::string::StringExecFns;
use crate::llm::LLMError;
use crate::mcp::MCPError;
use crate::tool::ToolError;

verus! {

/// Any failure the library can report.
#[derive(Debug)]
pub enum AgentError {
    /// The model adapter failed.
    LLM(LLMError),
    /// A tool failed unrecoverably.
    Tool(ToolError),
    /// The remote tool protocol failed.
    MCP(MCPError),
    /// The session was in no state for the operation.
    Session(String),
    /// A permission rule denied the operation.
    PermissionDenied(String),
    /// The step budget was spent.
    MaxStepsExceeded,
    /// An input or output channel failed.
    Io(String),
    /// A JSON document could not be read or written.
    Json(String),
}

impl AgentError {
    /// The rendered message for this error.
    pub open spec fn spec_message(self) -> Seq<char> {
        match self {
            AgentError::LLM(e) => "LLM error: "@ + e.spec_message(),
            AgentError::Tool(e) => "Tool error: "@ + e.spec_message(),
            AgentError::MCP(e) => "MCP error: "@ + e.spec_message(),
            AgentError::Session(s) => "Session error: "@ + s@,
            AgentError::PermissionDenied(s) => "Permission denied: "@ + s@,
            AgentError::MaxStepsExceeded => "Max steps exceeded"@,
            AgentError::Io(s) => "IO error: "@ + s@,
            AgentError::Json(s) => "JSON error: "@ + s@,
        }
    }

    /// Renders the error as text.
    pub fn message(&self) -> (r: String)
        ensures
            r@ == self.spec_message(),
    {
        match self {
            AgentError::LLM(e) => {
                let mut out = String::from_str("LLM error: ");
                let inner = e.message();
                out.append(inner.as_str());
                out
            }
            AgentError::Tool(e) => {
                let mut out = String::from_str("Tool error: ");
                let inner = e.message();
                out.append(inner.as_str());
                out
            }
            AgentError::MCP(e) => {
                let mut out = String::from_str("MCP error: ");
                let inner = e.message();
                out.append(inner.as_str());
                out
            }
            AgentError::Session(s) => {
                let mut out = String::from_str("Session error: ");
                out.append(s.as_str());
                out
            }
            AgentError::PermissionDenied(s) => {
                let mut out = String::from_str("Permission denied: ");
                out.append(s.as_str());
                out
            }
            AgentError::MaxStepsExceeded => String::from_str("Max steps exceeded"),
            AgentError::Io(s) => {
                let mut out = String::from_str("IO error: ");
                out.append(s.as_str());
                out
            }
            AgentError::Json(s) => {
                let mut out = String::from_str("JSON error: ");
                out.append(s.as_str());
                out
            }
        }
    }
}

} // verus!
