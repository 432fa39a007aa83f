use simple_agent::JsonValue;
use simple_agent::Tool;
use simple_agent::ToolError;
use simple_agent::ToolRegistry;
use simple_agent::ToolResult;

struct FixedTool {
    name: String,
    description: String,
    output: String,
}

impl Tool for FixedTool {
    fn name(&self) -> String {
        self.name.clone()
    }

    fn description(&self) -> String {
        self.description.clone()
    }

    fn parameters_schema(&self) -> JsonValue {
        JsonValue::Obj(Vec::new())
    }

    fn execute(&self, _args: &JsonValue) -> Result<ToolResult, ToolError> {
        Ok(ToolResult::ok(&self.output))
    }
}

fn tool(name: &str, output: &str) -> FixedTool {
    FixedTool {
        name: name.to_string(),
        description: format!("returns {}", output),
        output: output.to_string(),
    }
}

#[test]
fn register_get_len() {
    let mut reg: ToolRegistry<FixedTool> = ToolRegistry::new();
    assert!(reg.is_empty());
    assert_eq!(reg.len(), 0);
    reg.register(tool("alpha", "a"));
    reg.register(tool("beta", "b"));
    assert_eq!(reg.len(), 2);
    assert!(!reg.is_empty());
    assert!(reg.get("alpha").is_some());
    assert!(reg.get("beta").is_some());
    assert!(reg.get("gamma").is_none());
}

#[test]
fn register_replaces_same_name() {
    let mut reg: ToolRegistry<FixedTool> = ToolRegistry::new();
    reg.register(tool("alpha", "first"));
    reg.register(tool("alpha", "second"));
    assert_eq!(reg.len(), 1);
    assert_eq!(reg.get("alpha").unwrap().output, "second");
}

#[test]
fn unregister_removes_binding() {
    let mut reg: ToolRegistry<FixedTool> = ToolRegistry::new();
    reg.register(tool("alpha", "a"));
    reg.register(tool("beta", "b"));
    let removed = reg.unregister("alpha");
    assert!(removed.is_some());
    assert_eq!(removed.unwrap().name, "alpha");
    assert!(reg.get("alpha").is_none());
    assert!(reg.get("beta").is_some());
    assert_eq!(reg.len(), 1);
    assert!(reg.unregister("alpha").is_none());
}

#[test]
fn get_is_idempotent() {
    let mut reg: ToolRegistry<FixedTool> = ToolRegistry::new();
    reg.register(tool("alpha", "a"));
    reg.register(tool("beta", "b"));
    let first = reg.get("alpha").unwrap();
    let first_name = first.name.clone();
    let first_output = first.output.clone();
    let second = reg.get("alpha").unwrap();
    assert_eq!(first_name, second.name);
    assert_eq!(first_output, second.output);
}

#[test]
fn list_returns_every_tool() {
    let mut reg: ToolRegistry<FixedTool> = ToolRegistry::new();
    reg.register(tool("alpha", "a"));
    reg.register(tool("beta", "b"));
    let listed = reg.list();
    assert_eq!(listed.len(), 2);
    let names: Vec<String> = listed.iter().map(|t| t.name.clone()).collect();
    assert!(names.contains(&"alpha".to_string()));
    assert!(names.contains(&"beta".to_string()));
}

#[test]
fn registered_tool_surfaces_unmodified_definition() {
    let mut reg: ToolRegistry<FixedTool> = ToolRegistry::new();
    reg.register(tool("alpha", "a"));
    reg.register(tool("beta", "b"));
    let defs = reg.to_tool_definitions();
    assert_eq!(defs.len(), 2);
    let alpha = defs.iter().find(|d| d.name == "alpha").unwrap();
    assert_eq!(alpha.description, "returns a");
    assert_eq!(alpha.input_schema, JsonValue::Obj(Vec::new()));
}
