//! Tool dispatch: resolves tool calls by name against a registry and runs
//! them, converting every failure into an error-flagged result block.

use vstd::prelude::*;
use crate::json::JsonValue;
use crate::message::MessageContent;
use crate::registry::ToolRegistry;
use crate::tool::Tool;
use crate::tool::ToolDefinition;
use crate::tool::ToolError;

verus! {

/// Ambient identifiers handed to each tool execution.
#[derive(Debug)]
pub struct ExecutionContext {
    /// The session the call belongs to.
    pub session_id: String,
    /// The assistant message that requested the call.
    pub message_id: String,
}

/// Executes tool calls against a registry. `execute` never raises: every
/// failure mode becomes an error-flagged `ToolResult` block.
pub struct ToolExecutor<T: Tool> {
    registry: ToolRegistry<T>,
}

impl<T: Tool> ToolExecutor<T> {
    /// The registry the executor resolves against.
    pub closed spec fn spec_registry(self) -> ToolRegistry<T> {
        self.registry
    }

    /// A fresh executor over the given registry.
    pub fn new(registry: ToolRegistry<T>) -> (r: ToolExecutor<T>)
        ensures
            r.spec_registry() == registry,
    {
        ToolExecutor { registry }
    }

    /// The definition of every registered tool, for the model input.
    pub fn get_tool_definitions(&self) -> (r: Vec<ToolDefinition>)
        ensures
            r@.len() == self.spec_registry().entries().len(),
            forall|i: int|
                0 <= i < r@.len() ==> (#[trigger] r@[i]).name@ == self.spec_registry().entries()[i].1.spec_name()
                    && r@[i].description@ == self.spec_registry().entries()[i].1.spec_description()
                    && r@[i].input_schema@ == self.spec_registry().entries()[i].1.spec_schema(),
    {
        self.registry.to_tool_definitions()
    }

    /// Executes one tool call and returns its result block.
    ///
    /// The result always correlates back to the call: a `ToolCall` block gets
    /// its own id, anything else an empty id and an error flag. A name that
    /// resolves to no tool yields an error-flagged "Tool not found" result.
    pub fn execute(&self, call: &MessageContent, _ctx: &ExecutionContext) -> (r: MessageContent)
        ensures
            r.is_result(),
            call.is_call() ==> r.result_call_id() == call.call_id(),
            !call.is_call() ==> r.result_call_id() == Seq::<char>::empty() && r.result_is_error()
                == Some(true) && r.result_text() == "Invalid tool call content"@,
            call.is_call() && !self.spec_registry().contains_name(call.call_name())
                ==> r.result_is_error() == Some(true) && r.result_text() == "Tool not found: "@
                + call.call_name(),
    {
        let (id, name, arguments): (&String, &String, &JsonValue) = match call {
            MessageContent::ToolCall { id, name, arguments } => (id, name, arguments),
            _ => {
                return MessageContent::ToolResult {
                    tool_call_id: String::new(),
                    result: String::from_str("Invalid tool call content"),
                    is_error: Some(true),
                };
            }
        };

        let tool = match self.registry.get(name.as_str()) {
            Some(tool) => tool,
            None => {
                let not_found = ToolError::NotFound(name.clone());
                return MessageContent::ToolResult {
                    tool_call_id: id.clone(),
                    result: not_found.message(),
                    is_error: Some(true),
                };
            }
        };

        match tool.execute(arguments) {
            Ok(result) => {
                let is_error: Option<bool> = match &result.error {
                    Some(_) => Some(true),
                    None => None,
                };
                MessageContent::ToolResult {
                    tool_call_id: id.clone(),
                    result: result.output,
                    is_error,
                }
            }
            Err(error) => MessageContent::ToolResult {
                tool_call_id: id.clone(),
                result: error.message(),
                is_error: Some(true),
            },
        }
    }

    /// Executes every call in the order given, sequentially, and returns one
    /// result per call, in the same order, even when some calls fail.
    #[verifier::loop_isolation(false)]
    pub fn execute_all(&self, calls: Vec<MessageContent>, ctx: ExecutionContext) -> (r: Vec<
        MessageContent,
    >)
        ensures
            r@.len() == calls@.len(),
            forall|i: int|
                0 <= i < calls@.len() ==> (#[trigger] r@[i]).is_result() && (calls@[i].is_call()
                    ==> r@[i].result_call_id() == calls@[i].call_id()),
    {
        let mut results: Vec<MessageContent> = Vec::new();
        let mut i: usize = 0;
        while i < calls.len()
            invariant
                i <= calls@.len(),
                results@.len() == i,
                forall|j: int|
                    0 <= j < i ==> (#[trigger] results@[j]).is_result() && (calls@[j].is_call()
                        ==> results@[j].result_call_id() == calls@[j].call_id()),
            decreases calls@.len() - i,
        {
            let result = self.execute(&calls[i], &ctx);
            results.push(result);
            i += 1;
        }
        results
    }
}

} // verus!
