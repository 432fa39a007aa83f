use simple_agent::ExecutionContext;
use simple_agent::JsonValue;
use simple_agent::MessageContent;
use simple_agent::Tool;
use simple_agent::ToolError;
use simple_agent::ToolExecutor;
use simple_agent::ToolRegistry;
use simple_agent::ToolResult;

enum Behavior {
    Succeed,
    FlagError,
    Fail,
}

struct ScriptedTool {
    name: String,
    behavior: Behavior,
}

impl Tool for ScriptedTool {
    fn name(&self) -> String {
        self.name.clone()
    }

    fn description(&self) -> String {
        "a scripted tool".to_string()
    }

    fn parameters_schema(&self) -> JsonValue {
        JsonValue::Obj(Vec::new())
    }

    fn execute(&self, args: &JsonValue) -> Result<ToolResult, ToolError> {
        match self.behavior {
            Behavior::Succeed => Ok(ToolResult::ok(&simple_agent::json::to_json_text(args))),
            Behavior::FlagError => Ok(ToolResult {
                output: "partial".to_string(),
                metadata: None,
                error: Some("soft failure".to_string()),
            }),
            Behavior::Fail => Err(ToolError::ExecutionFailed("hard failure".to_string())),
        }
    }
}

fn executor() -> ToolExecutor<ScriptedTool> {
    let mut reg: ToolRegistry<ScriptedTool> = ToolRegistry::new();
    reg.register(ScriptedTool {
        name: "ok_tool".to_string(),
        behavior: Behavior::Succeed,
    });
    reg.register(ScriptedTool {
        name: "flagged_tool".to_string(),
        behavior: Behavior::FlagError,
    });
    reg.register(ScriptedTool {
        name: "failing_tool".to_string(),
        behavior: Behavior::Fail,
    });
    ToolExecutor::new(reg)
}

fn ctx() -> ExecutionContext {
    ExecutionContext {
        session_id: "session-1".to_string(),
        message_id: "message-1".to_string(),
    }
}

fn call(id: &str, name: &str) -> MessageContent {
    MessageContent::ToolCall {
        id: id.to_string(),
        name: name.to_string(),
        arguments: JsonValue::Obj(vec![("n".to_string(), JsonValue::Int(1))]),
    }
}

fn as_result(content: &MessageContent) -> (&str, &str, Option<bool>) {
    match content {
        MessageContent::ToolResult {
            tool_call_id,
            result,
            is_error,
        } => (tool_call_id, result, *is_error),
        _ => panic!("expected a tool result block"),
    }
}

#[test]
fn successful_call_carries_output() {
    let ex = executor();
    let r = ex.execute(&call("c1", "ok_tool"), &ctx());
    let (id, result, is_error) = as_result(&r);
    assert_eq!(id, "c1");
    assert_eq!(result, "{\"n\":1}");
    assert_eq!(is_error, None);
}

#[test]
fn tool_level_error_flag_propagates() {
    let ex = executor();
    let r = ex.execute(&call("c2", "flagged_tool"), &ctx());
    let (id, result, is_error) = as_result(&r);
    assert_eq!(id, "c2");
    assert_eq!(result, "partial");
    assert_eq!(is_error, Some(true));
}

#[test]
fn failing_tool_becomes_error_result() {
    let ex = executor();
    let r = ex.execute(&call("c3", "failing_tool"), &ctx());
    let (id, result, is_error) = as_result(&r);
    assert_eq!(id, "c3");
    assert_eq!(result, "Execution failed: hard failure");
    assert_eq!(is_error, Some(true));
}

#[test]
fn missing_tool_becomes_not_found_result() {
    let ex = executor();
    let r = ex.execute(&call("c4", "absent_tool"), &ctx());
    let (id, result, is_error) = as_result(&r);
    assert_eq!(id, "c4");
    assert_eq!(result, "Tool not found: absent_tool");
    assert_eq!(is_error, Some(true));
}

#[test]
fn non_call_block_is_rejected_in_band() {
    let ex = executor();
    let r = ex.execute(
        &MessageContent::Text {
            text: "not a call".to_string(),
        },
        &ctx(),
    );
    let (id, result, is_error) = as_result(&r);
    assert_eq!(id, "");
    assert_eq!(result, "Invalid tool call content");
    assert_eq!(is_error, Some(true));
}

#[test]
fn execute_all_keeps_order_and_count() {
    let ex = executor();
    let calls = vec![
        call("a", "ok_tool"),
        call("b", "absent_tool"),
        call("c", "failing_tool"),
        call("d", "flagged_tool"),
    ];
    let results = ex.execute_all(calls, ctx());
    assert_eq!(results.len(), 4);
    let ids: Vec<&str> = results.iter().map(|r| as_result(r).0).collect();
    assert_eq!(ids, vec!["a", "b", "c", "d"]);
    assert_eq!(as_result(&results[0]).2, None);
    assert_eq!(as_result(&results[1]).2, Some(true));
    assert_eq!(as_result(&results[2]).2, Some(true));
    assert_eq!(as_result(&results[3]).2, Some(true));
}
