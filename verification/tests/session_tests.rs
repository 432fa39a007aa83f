use simple_agent::adapter::definitions_from_tool_infos;
use simple_agent::adapter::McpCaller;
use simple_agent::adapter::MCPToolAdapter;
use simple_agent::JsonValue;
use simple_agent::MCPError;
use simple_agent::MCToolInfo;
use simple_agent::Message;
use simple_agent::MessageContent;
use simple_agent::MessageRole;
use simple_agent::ModelConfig;
use simple_agent::Session;
use simple_agent::SessionStatus;
use simple_agent::Tool;

#[test]
fn new_user_message_has_one_text_block() {
    let m = Message::new_user("hi there");
    assert_eq!(m.role, MessageRole::User);
    assert_eq!(m.content.len(), 1);
    assert!(matches!(&m.content[0], MessageContent::Text { text } if text == "hi there"));
    assert_eq!(m.id.len(), 36);
}

#[test]
fn constructor_roles_are_fixed() {
    let a = Message::new_assistant(vec![MessageContent::Text {
        text: "ok".to_string(),
    }]);
    assert_eq!(a.role, MessageRole::Assistant);
    let t = Message::new_tool_result(Vec::new());
    assert_eq!(t.role, MessageRole::Tool);
    assert!(t.content.is_empty());
}

#[test]
fn fresh_messages_get_distinct_ids() {
    let a = Message::new_user("one");
    let b = Message::new_user("two");
    assert_ne!(a.id, b.id);
}

#[test]
fn model_config_default() {
    let c = ModelConfig::default();
    assert_eq!(c.name, "gpt-4o");
    assert_eq!(c.max_tokens, 4096);
    assert!(c.temperature_milli.is_none());
    assert!(c.extra.is_none());
}

#[test]
fn session_log_operations() {
    let mut s = Session::with_default_model("prompt");
    assert_eq!(s.status, SessionStatus::Idle);
    assert_eq!(s.system_prompt, "prompt");
    assert_eq!(s.message_count(), 0);
    s.add_message(Message::new_user("a"));
    s.add_message(Message::new_user("b"));
    assert_eq!(s.message_count(), 2);
    s.clear_messages();
    assert_eq!(s.message_count(), 0);
}

#[derive(Clone)]
struct ScriptedCaller {
    answer: String,
}

impl McpCaller for ScriptedCaller {
    fn call_tool(&self, name: &str, _arguments: &JsonValue) -> Result<String, MCPError> {
        if name == "down" {
            Err(MCPError::Timeout)
        } else {
            Ok(self.answer.clone())
        }
    }
}

#[test]
fn remote_definitions_survive_adaptation_unmodified() {
    let infos = vec![MCToolInfo {
        name: "read_file".to_string(),
        description: "reads a file".to_string(),
        input_schema: JsonValue::Obj(vec![(
            "type".to_string(),
            JsonValue::Str("object".to_string()),
        )]),
    }];
    let defs = definitions_from_tool_infos(&infos);
    assert_eq!(defs.len(), 1);
    assert_eq!(defs[0].name, "read_file");
    assert_eq!(defs[0].description, "reads a file");
    assert_eq!(
        defs[0].input_schema,
        JsonValue::Obj(vec![(
            "type".to_string(),
            JsonValue::Str("object".to_string())
        )])
    );

    let caller = ScriptedCaller {
        answer: "file contents".to_string(),
    };
    let adapters = simple_agent::adapter::adapt_mcp_tools(caller, &defs);
    assert_eq!(adapters.len(), 1);
    assert_eq!(adapters[0].name(), "read_file");
    assert_eq!(adapters[0].description(), "reads a file");
    let def = adapters[0].to_definition();
    assert_eq!(def.name, "read_file");
    assert_eq!(def.description, "reads a file");
    assert_eq!(def.input_schema, defs[0].input_schema);
}

#[test]
fn adapter_delegates_execution_and_maps_errors() {
    let caller = ScriptedCaller {
        answer: "answer".to_string(),
    };
    let up = MCPToolAdapter::new(
        caller.clone(),
        simple_agent::ToolDefinition {
            name: "up".to_string(),
            description: "works".to_string(),
            input_schema: JsonValue::Null,
        },
    );
    let r = up.execute(&JsonValue::Null).unwrap();
    assert_eq!(r.output, "answer");
    assert!(r.error.is_none());

    let down = MCPToolAdapter::new(
        caller,
        simple_agent::ToolDefinition {
            name: "down".to_string(),
            description: "fails".to_string(),
            input_schema: JsonValue::Null,
        },
    );
    match down.execute(&JsonValue::Null) {
        Err(simple_agent::ToolError::ExecutionFailed(m)) => assert_eq!(m, "Timeout"),
        _ => panic!("expected an execution failure"),
    }
}
