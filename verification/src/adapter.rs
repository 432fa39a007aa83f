//! Wraps tools discovered over the remote tool protocol as entries for the
//! tool registry: same definition, execution delegated to the session.

use vstd::prelude::*;
use crate::json::JsonData;
use crate::json::JsonValue;
use crate::mcp::MCPError;
use crate::mcp::MCToolInfo;
use crate::tool::Tool;
use crate::tool::ToolDefinition;
use crate::tool::ToolError;
use crate::tool::ToolResult;

verus! {

/// The port through which a remote-backed tool reaches its session. An
/// implementor carries the transport I/O; what the remote host answers is
/// its own business, so the method carries no contract.
pub trait McpCaller: Sized {
    /// Invokes the named remote tool with the given arguments.
    fn call_tool(&self, name: &str, arguments: &JsonValue) -> Result<String, MCPError>;
}

/// A remote tool presented as a registry-compatible `Tool`: it surfaces the
/// discovered definition and delegates execution to its session handle.
pub struct MCPToolAdapter<C: McpCaller> {
    client: C,
    definition: ToolDefinition,
}

impl<C: McpCaller> MCPToolAdapter<C> {
    /// The definition this adapter surfaces.
    pub closed spec fn spec_definition(self) -> ToolDefinition {
        self.definition
    }

    /// A fresh adapter over the given session handle and definition.
    pub fn new(client: C, definition: ToolDefinition) -> (r: MCPToolAdapter<C>)
        ensures
            r.spec_definition() == definition,
    {
        MCPToolAdapter { client, definition }
    }
}

impl<C: McpCaller> Tool for MCPToolAdapter<C> {
    open spec fn spec_name(&self) -> Seq<char> {
        self.spec_definition().name@
    }

    open spec fn spec_description(&self) -> Seq<char> {
        self.spec_definition().description@
    }

    open spec fn spec_schema(&self) -> JsonData {
        self.spec_definition().input_schema@
    }

    fn name(&self) -> (r: String)
        ensures
            r@ == self.spec_name(),
    {
        self.definition.name.clone()
    }

    fn description(&self) -> (r: String)
        ensures
            r@ == self.spec_description(),
    {
        self.definition.description.clone()
    }

    fn parameters_schema(&self) -> (r: JsonValue)
        ensures
            r@ == self.spec_schema(),
    {
        self.definition.input_schema.duplicate()
    }

    fn execute(&self, args: &JsonValue) -> Result<ToolResult, ToolError> {
        match self.client.call_tool(self.definition.name.as_str(), args) {
            Ok(output) => Ok(ToolResult::ok(output.as_str())),
            Err(e) => Err(ToolError::ExecutionFailed(e.message())),
        }
    }
}

/// Turns discovered tool information into plain definitions, unmodified.
#[verifier::loop_isolation(false)]
pub fn definitions_from_tool_infos(infos: &Vec<MCToolInfo>) -> (r: Vec<ToolDefinition>)
    ensures
        r@.len() == infos@.len(),
        forall|i: int|
            0 <= i < r@.len() ==> (#[trigger] r@[i]).name@ == infos@[i].name@
                && r@[i].description@ == infos@[i].description@ && r@[i].input_schema@
                == infos@[i].input_schema@,
{
    let mut out: Vec<ToolDefinition> = Vec::new();
    let mut i: usize = 0;
    while i < infos.len()
        invariant
            i <= infos@.len(),
            out@.len() == i,
            forall|j: int|
                0 <= j < i ==> (#[trigger] out@[j]).name@ == infos@[j].name@
                    && out@[j].description@ == infos@[j].description@ && out@[j].input_schema@
                    == infos@[j].input_schema@,
        decreases infos@.len() - i,
    {
        let info = &infos[i];
        out.push(
            ToolDefinition {
                name: info.name.clone(),
                description: info.description.clone(),
                input_schema: info.input_schema.duplicate(),
            },
        );
        i += 1;
    }
    out
}

/// Wraps every definition as a remote-backed tool sharing one session
/// handle; each adapter surfaces its definition unmodified.
#[verifier::loop_isolation(false)]
pub fn adapt_mcp_tools<C: McpCaller + Clone>(client: C, definitions: &Vec<ToolDefinition>) -> (r:
    Vec<MCPToolAdapter<C>>)
    ensures
        r@.len() == definitions@.len(),
        forall|i: int|
            0 <= i < r@.len() ==> (#[trigger] r@[i]).spec_name() == definitions@[i].name@
                && r@[i].spec_description() == definitions@[i].description@
                && r@[i].spec_schema() == definitions@[i].input_schema@,
{
    let mut out: Vec<MCPToolAdapter<C>> = Vec::new();
    let mut i: usize = 0;
    while i < definitions.len()
        invariant
            i <= definitions@.len(),
            out@.len() == i,
            forall|j: int|
                0 <= j < i ==> (#[trigger] out@[j]).spec_name() == definitions@[j].name@
                    && out@[j].spec_description() == definitions@[j].description@
                    && out@[j].spec_schema() == definitions@[j].input_schema@,
        decreases definitions@.len() - i,
    {
        let def = definitions[i].duplicate();
        out.push(MCPToolAdapter::new(client.clone(), def));
        i += 1;
    }
    out
}

} // verus!
