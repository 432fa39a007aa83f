//! The tool capability: a polymorphic contract that local and remote-backed
//! tools implement, plus the plain data types they exchange.

use vstd::prelude::*;
use vstd::string::StringExecFns;
use crate::json::JsonData;
use crate::json::JsonValue;

verus! {

/// What a tool looks like to the model: a unique name, a description and a
/// JSON-Schema-shaped description of its input.
#[derive(Debug)]
pub struct ToolDefinition {
    /// The tool name, unique within a registry.
    pub name: String,
    /// What the tool does.
    pub description: String,
    /// JSON Schema for the tool's input parameters.
    pub input_schema: JsonValue,
}

/// Model-level equality of two tool definitions.
pub open spec fn def_eq(a: ToolDefinition, b: ToolDefinition) -> bool {
    a.name@ == b.name@ && a.description@ == b.description@ && a.input_schema@ == b.input_schema@
}

impl ToolDefinition {
    /// A deep copy, equal to the original in the model.
    pub fn duplicate(&self) -> (r: ToolDefinition)
        ensures
            def_eq(r, *self),
    {
        ToolDefinition {
            name: self.name.clone(),
            description: self.description.clone(),
            input_schema: self.input_schema.duplicate(),
        }
    }
}

/// The result of executing a tool.
#[derive(Debug)]
pub struct ToolResult {
    /// The output from the tool.
    pub output: String,
    /// Optional metadata from the tool execution.
    pub metadata: Option<Vec<(String, JsonValue)>>,
    /// The error message, when the execution failed.
    pub error: Option<String>,
}

impl ToolResult {
    /// A successful result carrying the given output.
    pub fn ok(output: &str) -> (r: ToolResult)
        ensures
            r.output@ == output@,
            r.metadata is None,
            r.error is None,
    {
        ToolResult { output: String::from_str(output), metadata: None, error: None }
    }

    /// A failed result carrying the given error message and empty output.
    pub fn error(error: &str) -> (r: ToolResult)
        ensures
            r.output@.len() == 0,
            r.metadata is None,
            r.error matches Some(e) && e@ == error@,
    {
        ToolResult { output: String::new(), metadata: None, error: Some(String::from_str(error)) }
    }
}

/// Why a tool invocation failed.
#[derive(Debug)]
pub enum ToolError {
    /// The arguments did not fit the tool's schema.
    InvalidArguments(String),
    /// The tool ran and failed.
    ExecutionFailed(String),
    /// No tool of the requested name exists.
    NotFound(String),
}

impl ToolError {
    /// The rendered message for this error.
    pub open spec fn spec_message(self) -> Seq<char> {
        match self {
            ToolError::InvalidArguments(s) => "Invalid arguments: "@ + s@,
            ToolError::ExecutionFailed(s) => "Execution failed: "@ + s@,
            ToolError::NotFound(s) => "Tool not found: "@ + s@,
        }
    }

    /// Renders the error as text.
    pub fn message(&self) -> (r: String)
        ensures
            r@ == self.spec_message(),
    {
        match self {
            ToolError::InvalidArguments(s) => {
                let mut out = String::from_str("Invalid arguments: ");
                out.append(s.as_str());
                out
            }
            ToolError::ExecutionFailed(s) => {
                let mut out = String::from_str("Execution failed: ");
                out.append(s.as_str());
                out
            }
            ToolError::NotFound(s) => {
                let mut out = String::from_str("Tool not found: ");
                out.append(s.as_str());
                out
            }
        }
    }
}

/// The capability contract every tool implements, local or remote-backed.
///
/// `name`, `description` and `parameters_schema` are pinned to the spec-level
/// values an implementor declares, so that registries and model inputs can
/// speak about them; `execute` is deliberately contract-free, since what a
/// tool does is its own business.
pub trait Tool: Sized {
    /// The name, as the specification sees it. A verified implementor
    /// overrides this to match what `name` returns; the default stands in
    /// for implementors outside the verifier's reach.
    open spec fn spec_name(&self) -> Seq<char> {
        Seq::empty()
    }

    /// The description, as the specification sees it; see `spec_name`.
    open spec fn spec_description(&self) -> Seq<char> {
        Seq::empty()
    }

    /// The input schema, as the specification sees it; see `spec_name`.
    open spec fn spec_schema(&self) -> JsonData {
        JsonData::Null
    }

    /// The tool's stable name, the registry key.
    fn name(&self) -> (r: String)
        ensures
            r@ == self.spec_name(),
    ;

    /// What the tool does.
    fn description(&self) -> (r: String)
        ensures
            r@ == self.spec_description(),
    ;

    /// JSON Schema for the tool's input parameters.
    fn parameters_schema(&self) -> (r: JsonValue)
        ensures
            r@ == self.spec_schema(),
    ;

    /// Runs the tool on the given arguments.
    fn execute(&self, args: &JsonValue) -> Result<ToolResult, ToolError>;

    /// Packages name, description and schema as a `ToolDefinition`.
    fn to_definition(&self) -> (r: ToolDefinition)
        ensures
            r.name@ == self.spec_name(),
            r.description@ == self.spec_description(),
            r.input_schema@ == self.spec_schema(),
    {
        ToolDefinition {
            name: self.name(),
            description: self.description(),
            input_schema: self.parameters_schema(),
        }
    }
}

} // verus!
