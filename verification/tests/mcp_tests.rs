use simple_agent::mcp::first_json_response;
use simple_agent::JsonValue;
use simple_agent::MCPClient;
use simple_agent::MCPError;
use simple_agent::MCPTransport;

fn stdio_client() -> MCPClient {
    MCPClient::builder()
        .with_name("host")
        .with_stdio_transport("mcp-server", vec!["--serve".to_string()])
        .build()
        .unwrap()
}

fn http_client() -> MCPClient {
    MCPClient::builder()
        .with_name("host")
        .with_http_transport("http://localhost:9000")
        .build()
        .unwrap()
}

fn sse_client() -> MCPClient {
    MCPClient::builder()
        .with_name("host")
        .with_sse_transport("http://localhost:9000")
        .build()
        .unwrap()
}

#[test]
fn builder_requires_name_and_transport() {
    let err = MCPClient::builder().build().expect_err("no name");
    assert_eq!(err.message(), "Connection error: MCP server name is required");
    let err = MCPClient::builder()
        .with_name("host")
        .build()
        .expect_err("no transport");
    assert_eq!(err.message(), "Connection error: MCP transport is required");
}

#[test]
fn builder_applies_timeout_and_default() {
    let c = stdio_client();
    assert_eq!(c.config().timeout_ms, 30000);
    let c = MCPClient::builder()
        .with_name("host")
        .with_http_transport("http://localhost:9000")
        .with_timeout(5000)
        .build()
        .unwrap();
    assert_eq!(c.config().timeout_ms, 5000);
    assert_eq!(c.config().name, "host");
    match &c.config().transport {
        MCPTransport::Http { url } => assert_eq!(url, "http://localhost:9000"),
        _ => panic!("expected the HTTP transport"),
    }
}

#[test]
fn connection_state_tracks_connect_and_disconnect() {
    let mut c = stdio_client();
    assert!(!c.is_connected());
    c.mark_connected();
    assert!(c.is_connected());
    c.disconnect();
    assert!(!c.is_connected());
}

#[test]
fn initialize_envelope_has_the_fixed_shape() {
    let c = stdio_client();
    let text = c.initialize_request_text();
    let v: serde_json::Value = serde_json::from_str(&text).unwrap();
    assert_eq!(v["jsonrpc"], "2.0");
    assert_eq!(v["id"], 1);
    assert_eq!(v["method"], "initialize");
    assert_eq!(v["params"]["protocolVersion"], "2024-11-05");
    assert!(v["params"]["capabilities"].as_object().unwrap().is_empty());
    assert_eq!(v["params"]["clientInfo"]["name"], "simple-agent");
    assert_eq!(v["params"]["clientInfo"]["version"], "0.1.0");
}

#[test]
fn request_ids_count_up_per_session() {
    let mut c = stdio_client();
    let first = c.tools_list_request_text();
    let second = c.tools_list_request_text();
    let v1: serde_json::Value = serde_json::from_str(&first).unwrap();
    let v2: serde_json::Value = serde_json::from_str(&second).unwrap();
    assert_eq!(v1["id"], 0);
    assert_eq!(v2["id"], 1);
    assert_eq!(v1["method"], "tools/list");
    assert!(v1["params"].as_object().unwrap().is_empty());
}

#[test]
fn call_tool_envelope_carries_name_and_arguments() {
    let mut c = http_client();
    let args = JsonValue::Obj(vec![("path".to_string(), JsonValue::Str("/tmp".to_string()))]);
    let text = c.call_tool_request_text("list_files", args);
    let v: serde_json::Value = serde_json::from_str(&text).unwrap();
    assert_eq!(v["method"], "tools/call");
    assert_eq!(v["params"]["name"], "list_files");
    assert_eq!(v["params"]["arguments"]["path"], "/tmp");
}

#[test]
fn noise_lines_are_discarded_before_the_response() {
    let lines = vec![
        "starting tool host ...".to_string(),
        "[warn] legacy flag ignored".to_string(),
        "{\"jsonrpc\":\"2.0\",\"id\":0,\"result\":{\"tools\":[]}}".to_string(),
    ];
    let (index, value) = first_json_response(&lines).expect("a response line is present");
    assert_eq!(index, 2);
    let result = value.get("result").expect("the response has a result");
    assert_eq!(result.get("tools"), Some(&JsonValue::Arr(Vec::new())));
}

#[test]
fn all_noise_means_no_response() {
    let lines = vec!["nope".to_string(), "still nope".to_string()];
    assert!(first_json_response(&lines).is_none());
}

fn tools_list_response_value() -> JsonValue {
    JsonValue::Obj(vec![(
        "result".to_string(),
        JsonValue::Obj(vec![(
            "tools".to_string(),
            JsonValue::Arr(vec![JsonValue::Obj(vec![
                ("name".to_string(), JsonValue::Str("read_file".to_string())),
                (
                    "description".to_string(),
                    JsonValue::Str("reads a file".to_string()),
                ),
                (
                    "input_schema".to_string(),
                    JsonValue::Obj(vec![(
                        "type".to_string(),
                        JsonValue::Str("object".to_string()),
                    )]),
                ),
            ])]),
        )]),
    )])
}

#[test]
fn transports_interpret_equivalent_fixtures_identically() {
    let response = tools_list_response_value();
    let clients = [stdio_client(), http_client(), sse_client()];
    let mut seen: Vec<(String, String, String)> = Vec::new();
    for c in &clients {
        let tools = c.tools_list_response(&response).unwrap();
        assert_eq!(tools.len(), 1);
        seen.push((
            tools[0].name.clone(),
            tools[0].description.clone(),
            simple_agent::json::to_json_text(&tools[0].input_schema),
        ));
    }
    assert_eq!(seen[0], seen[1]);
    assert_eq!(seen[1], seen[2]);
    assert_eq!(seen[0].0, "read_file");

    let call_response = JsonValue::Obj(vec![(
        "result".to_string(),
        JsonValue::Obj(vec![(
            "content".to_string(),
            JsonValue::Str("it worked".to_string()),
        )]),
    )]);
    let outputs: Vec<String> = clients
        .iter()
        .map(|c| c.call_tool_response(&call_response).unwrap())
        .collect();
    assert_eq!(outputs[0], outputs[1]);
    assert_eq!(outputs[1], outputs[2]);
    assert_eq!(outputs[0], "{\"content\":\"it worked\"}");
}

#[test]
fn error_envelope_becomes_execution_error() {
    let c = http_client();
    let response = JsonValue::Obj(vec![(
        "error".to_string(),
        JsonValue::Obj(vec![
            ("code".to_string(), JsonValue::Int(-32601)),
            (
                "message".to_string(),
                JsonValue::Str("method not found".to_string()),
            ),
        ]),
    )]);
    match c.call_tool_response(&response) {
        Err(MCPError::ExecutionError(text)) => {
            assert_eq!(text, "{\"code\":-32601,\"message\":\"method not found\"}");
        }
        other => panic!("unexpected outcome: {:?}", other.map(|_| ())),
    }
}

#[test]
fn response_without_result_is_a_protocol_error() {
    let c = sse_client();
    let response = JsonValue::Obj(vec![("jsonrpc".to_string(), JsonValue::Str("2.0".to_string()))]);
    match c.tools_list_response(&response) {
        Err(MCPError::ProtocolError(m)) => assert_eq!(m, "No result in response"),
        _ => panic!("expected a protocol error"),
    }
}

#[test]
fn missing_tools_member_means_no_tools() {
    let c = stdio_client();
    let response = JsonValue::Obj(vec![(
        "result".to_string(),
        JsonValue::Obj(Vec::new()),
    )]);
    let tools = c.tools_list_response(&response).unwrap();
    assert!(tools.is_empty());
}

#[test]
fn malformed_tool_entry_is_a_protocol_error() {
    let c = stdio_client();
    let response = JsonValue::Obj(vec![(
        "result".to_string(),
        JsonValue::Obj(vec![(
            "tools".to_string(),
            JsonValue::Arr(vec![JsonValue::Obj(vec![(
                "name".to_string(),
                JsonValue::Int(3),
            )])]),
        )]),
    )]);
    match c.tools_list_response(&response) {
        Err(MCPError::ProtocolError(m)) => assert_eq!(m, "invalid tool entry"),
        _ => panic!("expected a protocol error"),
    }
}

#[test]
fn missing_schema_defaults_to_null() {
    let c = stdio_client();
    let response = JsonValue::Obj(vec![(
        "result".to_string(),
        JsonValue::Obj(vec![(
            "tools".to_string(),
            JsonValue::Arr(vec![JsonValue::Obj(vec![
                ("name".to_string(), JsonValue::Str("t".to_string())),
                ("description".to_string(), JsonValue::Str("d".to_string())),
            ])]),
        )]),
    )]);
    let tools = c.tools_list_response(&response).unwrap();
    assert_eq!(tools[0].input_schema, JsonValue::Null);
}

#[test]
fn default_timeout_is_thirty_seconds() {
    assert_eq!(simple_agent::mcp::default_timeout(), 30000);
}

#[test]
fn error_messages_render_their_kind() {
    assert_eq!(MCPError::Timeout.message(), "Timeout");
    assert_eq!(
        MCPError::ToolNotFound("lint".to_string()).message(),
        "Tool not found: lint"
    );
    assert_eq!(
        MCPError::HttpError("503".to_string()).message(),
        "HTTP error: 503"
    );
    assert_eq!(
        simple_agent::ToolError::InvalidArguments("bad".to_string()).message(),
        "Invalid arguments: bad"
    );
    assert_eq!(
        simple_agent::error::AgentError::MaxStepsExceeded.message(),
        "Max steps exceeded"
    );
    assert_eq!(
        simple_agent::error::AgentError::LLM(simple_agent::LLMError::RateLimitError(
            "slow down".to_string()
        ))
        .message(),
        "LLM error: Rate limit exceeded: slow down"
    );
}
