//! The remote tool protocol client core: a transport-agnostic JSON-RPC 2.0
//! session. The core builds request envelopes, numbers them, classifies
//! incoming lines, and interprets responses; carrying bytes to a child
//! process or an HTTP endpoint is the caller's business.
//!
//! All three transports share this one interpretation path, so equivalent
//! responses yield equal tool lists and result strings whatever the
//! transport: every contract below speaks of the response value alone.

use vstd::prelude::*;
use vstd::string::StringExecFns;
use crate::json::dec_digits;
use crate::json::json_obj_view;
use crate::json::json_seq_view;
use crate::json::json_text;
use crate::json::lemma_json_obj_view;
use crate::json::lemma_json_seq_view;
use crate::json::to_json_text;
use crate::json::u64_to_string;
use crate::json::JsonData;
use crate::json::JsonValue;

verus! {

/// Transport strategy for one session, fixed at construction.
#[derive(Debug)]
pub enum MCPTransport {
    /// A spawned child process, one JSON document per line on its standard
    /// input and output.
    Stdio { command: String, args: Vec<String>, env: Option<Vec<(String, String)>> },
    /// Synchronous HTTP POST of each envelope to `{url}/rpc`.
    Http { url: String },
    /// The same request/response mechanism as `Http`, kept as its own kind
    /// for servers advertised as server-sent-event endpoints.
    Sse { url: String, auth: Option<String> },
}

/// Configuration of one session.
#[derive(Debug)]
pub struct MCPConfig {
    /// Name of the remote tool host.
    pub name: String,
    /// The transport to speak over.
    pub transport: MCPTransport,
    /// Connection timeout in milliseconds; applied per request by the
    /// HTTP-like transports, not by the process transport.
    pub timeout_ms: u64,
}

/// The stock connection timeout, in milliseconds.
pub fn default_timeout() -> (r: u64)
    ensures
        r == 30000,
{
    30000
}

/// Why a remote tool protocol operation failed.
#[derive(Debug)]
pub enum MCPError {
    /// The session could not be set up or has no live channel.
    ConnectionError(String),
    /// The peer sent something that is not a well-formed response.
    ProtocolError(String),
    /// The remote host knows no such tool.
    ToolNotFound(String),
    /// The remote host reported an error for the call.
    ExecutionError(String),
    /// The operation timed out.
    Timeout,
    /// The HTTP layer failed.
    HttpError(String),
}

impl MCPError {
    /// The rendered message for this error.
    pub open spec fn spec_message(self) -> Seq<char> {
        match self {
            MCPError::ConnectionError(s) => "Connection error: "@ + s@,
            MCPError::ProtocolError(s) => "Protocol error: "@ + s@,
            MCPError::ToolNotFound(s) => "Tool not found: "@ + s@,
            MCPError::ExecutionError(s) => "Execution error: "@ + s@,
            MCPError::Timeout => "Timeout"@,
            MCPError::HttpError(s) => "HTTP error: "@ + s@,
        }
    }

    /// Renders the error as text.
    pub fn message(&self) -> (r: String)
        ensures
            r@ == self.spec_message(),
    {
        match self {
            MCPError::ConnectionError(s) => {
                let mut out = String::from_str("Connection error: ");
                out.append(s.as_str());
                out
            }
            MCPError::ProtocolError(s) => {
                let mut out = String::from_str("Protocol error: ");
                out.append(s.as_str());
                out
            }
            MCPError::ToolNotFound(s) => {
                let mut out = String::from_str("Tool not found: ");
                out.append(s.as_str());
                out
            }
            MCPError::ExecutionError(s) => {
                let mut out = String::from_str("Execution error: ");
                out.append(s.as_str());
                out
            }
            MCPError::Timeout => String::from_str("Timeout"),
            MCPError::HttpError(s) => {
                let mut out = String::from_str("HTTP error: ");
                out.append(s.as_str());
                out
            }
        }
    }
}

/// Information about one tool offered by the remote host.
#[derive(Debug)]
pub struct MCToolInfo {
    /// The tool name.
    pub name: String,
    /// What the tool does.
    pub description: String,
    /// JSON Schema for the tool's input; `Null` when the host gave none.
    pub input_schema: JsonValue,
}

// ---------------------------------------------------------------------------
// Parsing incoming text (trusted boundary)
// ---------------------------------------------------------------------------

/// What a piece of text parses to as JSON, if anything: the verdict of
/// serde_json's parser, named here because its grammar is beyond restating.
/// The parse is a function of the text alone.
pub uninterp spec fn parsed_json(s: Seq<char>) -> Option<JsonData>;

/// Declares serde_json::Value so that the conversion below may take it;
/// the type stays opaque here.
#[verifier::external_type_specification]
#[verifier::external_body]
pub struct ExSerdeValue(serde_json::Value);

/// Relies on serde_json::Value's variants, mapped one arm each onto the
/// library's own value type; integral numbers become `Int`, other numbers
/// keep their literal text.
#[verifier::external_body]
fn from_outside(v: serde_json::Value) -> JsonValue {
    match v {
        serde_json::Value::Null => JsonValue::Null,
        serde_json::Value::Bool(b) => JsonValue::Bool(b),
        serde_json::Value::Number(n) => match n.as_i64() {
            Some(i) => JsonValue::Int(i),
            None => JsonValue::Num(n.to_string()),
        },
        serde_json::Value::String(s) => JsonValue::Str(s),
        serde_json::Value::Array(a) => JsonValue::Arr(a.into_iter().map(from_outside).collect()),
        serde_json::Value::Object(o) => JsonValue::Obj(
            o.into_iter().map(|(k, x)| (k, from_outside(x))).collect(),
        ),
    }
}

/// Relies on serde_json::from_str: text either parses to one JSON value or
/// it does not, and which is a function of the text alone.
#[verifier::external_body]
pub fn parse_json_text(s: &str) -> (r: Option<JsonValue>)
    ensures
        match r {
            Some(v) => parsed_json(s@) == Some(v@),
            None => parsed_json(s@) is None,
        },
{
    match serde_json::from_str::<serde_json::Value>(s) {
        Ok(v) => Some(from_outside(v)),
        Err(_) => None,
    }
}

/// The process-transport read path: scan the received lines in order,
/// discard every line that is not JSON as diagnostic noise, and hand back
/// the first line that parses, with its position.
#[verifier::loop_isolation(false)]
pub fn first_json_response(lines: &Vec<String>) -> (r: Option<(usize, JsonValue)>)
    ensures
        match r {
            Some(iv) => iv.0 < lines@.len() && parsed_json(lines@[iv.0 as int]@) == Some(iv.1@)
                && forall|j: int|
                0 <= j < iv.0 ==> parsed_json((#[trigger] lines@[j])@) is None,
            None => forall|j: int|
                0 <= j < lines@.len() ==> parsed_json((#[trigger] lines@[j])@) is None,
        },
{
    let mut i: usize = 0;
    while i < lines.len()
        invariant
            i <= lines@.len(),
            forall|j: int| 0 <= j < i ==> parsed_json((#[trigger] lines@[j])@) is None,
        decreases lines@.len() - i,
    {
        match parse_json_text(lines[i].as_str()) {
            Some(v) => {
                return Some((i, v));
            }
            None => {}
        }
        i += 1;
    }
    None
}

// ---------------------------------------------------------------------------
// Request envelopes
// ---------------------------------------------------------------------------

/// The JSON-RPC 2.0 envelope: version, numeric id, method and parameters.
pub open spec fn rpc_envelope(id_digits: Seq<char>, method: Seq<char>, params: JsonData)
    -> JsonData {
    JsonData::Obj(
        seq![
            ("jsonrpc"@, JsonData::Str("2.0"@)),
            ("id"@, JsonData::Num(id_digits)),
            ("method"@, JsonData::Str(method)),
            ("params"@, params),
        ],
    )
}

/// The parameters of a `tools/call` request.
pub open spec fn call_params(name: Seq<char>, args: JsonData) -> JsonData {
    JsonData::Obj(seq![("name"@, JsonData::Str(name)), ("arguments"@, args)])
}

/// The fixed `initialize` envelope: protocol version `2024-11-05`, empty
/// capabilities, and this client's identity.
pub open spec fn initialize_envelope() -> JsonData {
    JsonData::Obj(
        seq![
            ("jsonrpc"@, JsonData::Str("2.0"@)),
            ("id"@, JsonData::Int(1)),
            ("method"@, JsonData::Str("initialize"@)),
            (
                "params"@,
                JsonData::Obj(
                    seq![
                        ("protocolVersion"@, JsonData::Str("2024-11-05"@)),
                        ("capabilities"@, JsonData::Obj(Seq::empty())),
                        (
                            "clientInfo"@,
                            JsonData::Obj(
                                seq![
                                    ("name"@, JsonData::Str("simple-agent"@)),
                                    ("version"@, JsonData::Str("0.1.0"@)),
                                ],
                            ),
                        ),
                    ],
                ),
            ),
        ],
    )
}

/// Builds the request envelope for `method` with the given id and
/// parameters.
fn build_request(id: u64, method: &str, params: JsonValue) -> (r: JsonValue)
    ensures
        r@ == rpc_envelope(dec_digits(id as nat), method@, params@),
{
    let ghost params_view = params@;
    let mut entries: Vec<(String, JsonValue)> = Vec::new();
    entries.push((String::from_str("jsonrpc"), JsonValue::Str(String::from_str("2.0"))));
    entries.push((String::from_str("id"), JsonValue::Num(u64_to_string(id))));
    entries.push((String::from_str("method"), JsonValue::Str(String::from_str(method))));
    entries.push((String::from_str("params"), params));
    let ghost ev = entries@;
    let r = JsonValue::Obj(entries);
    proof {
        lemma_json_obj_view(ev);
        assert(json_obj_view(ev) =~= seq![
            ("jsonrpc"@, JsonData::Str("2.0"@)),
            ("id"@, JsonData::Num(dec_digits(id as nat))),
            ("method"@, JsonData::Str(method@)),
            ("params"@, params_view),
        ]);
    }
    r
}

/// Builds the fixed `initialize` envelope.
pub fn build_initialize_request() -> (r: JsonValue)
    ensures
        r@ == initialize_envelope(),
{
    let mut client_info: Vec<(String, JsonValue)> = Vec::new();
    client_info.push((String::from_str("name"), JsonValue::Str(String::from_str("simple-agent"))));
    client_info.push((String::from_str("version"), JsonValue::Str(String::from_str("0.1.0"))));
    let ghost civ = client_info@;

    let mut params: Vec<(String, JsonValue)> = Vec::new();
    params.push((
        String::from_str("protocolVersion"),
        JsonValue::Str(String::from_str("2024-11-05")),
    ));
    params.push((String::from_str("capabilities"), JsonValue::empty_object()));
    params.push((String::from_str("clientInfo"), JsonValue::Obj(client_info)));
    let ghost pv = params@;

    let mut entries: Vec<(String, JsonValue)> = Vec::new();
    entries.push((String::from_str("jsonrpc"), JsonValue::Str(String::from_str("2.0"))));
    entries.push((String::from_str("id"), JsonValue::Int(1)));
    entries.push((String::from_str("method"), JsonValue::Str(String::from_str("initialize"))));
    entries.push((String::from_str("params"), JsonValue::Obj(params)));
    let ghost ev = entries@;

    let r = JsonValue::Obj(entries);
    proof {
        lemma_json_obj_view(civ);
        assert(json_obj_view(civ) =~= seq![
            ("name"@, JsonData::Str("simple-agent"@)),
            ("version"@, JsonData::Str("0.1.0"@)),
        ]);
        lemma_json_obj_view(pv);
        assert(json_obj_view(pv) =~= seq![
            ("protocolVersion"@, JsonData::Str("2024-11-05"@)),
            ("capabilities"@, JsonData::Obj(Seq::empty())),
            (
                "clientInfo"@,
                JsonData::Obj(
                    seq![
                        ("name"@, JsonData::Str("simple-agent"@)),
                        ("version"@, JsonData::Str("0.1.0"@)),
                    ],
                ),
            ),
        ]);
        lemma_json_obj_view(ev);
        assert(r@ == initialize_envelope()) by {
            assert(json_obj_view(ev) =~= initialize_envelope()->Obj_0);
        }
    }
    r
}

// ---------------------------------------------------------------------------
// Response interpretation, shared by all transports
// ---------------------------------------------------------------------------

/// Splits a JSON-RPC response: a top-level `error` member becomes an
/// execution error carrying the error's JSON text, otherwise the `result`
/// member is the answer, and a response with neither is a protocol error.
pub fn interpret_response<'a>(response: &'a JsonValue) -> (r: Result<&'a JsonValue, MCPError>)
    ensures
        match r {
            Ok(v) => response@.get_field("error"@) is None && response@.get_field("result"@)
                == Some(v@),
            Err(e) => match response@.get_field("error"@) {
                Some(err) => e matches MCPError::ExecutionError(s) && s@ == json_text(err),
                None => response@.get_field("result"@) is None && (e
                    matches MCPError::ProtocolError(s) && s@ == "No result in response"@),
            },
        },
{
    match response.get("error") {
        Some(err) => {
            let text = to_json_text(err);
            Err(MCPError::ExecutionError(text))
        }
        None => match response.get("result") {
            Some(v) => Ok(v),
            None => Err(MCPError::ProtocolError(String::from_str("No result in response"))),
        },
    }
}

/// What one entry of a `tools/list` answer means: its `name` and
/// `description` strings, which are required, and its `input_schema`, which
/// defaults to `Null`.
pub open spec fn tool_entry_model(d: JsonData) -> Option<(Seq<char>, Seq<char>, JsonData)> {
    match (d.get_field("name"@), d.get_field("description"@)) {
        (Some(JsonData::Str(n)), Some(JsonData::Str(desc))) => Some(
            (
                n,
                desc,
                match d.get_field("input_schema"@) {
                    Some(s) => s,
                    None => JsonData::Null,
                },
            ),
        ),
        _ => None,
    }
}

/// What a whole `tools` array means: every entry must decode.
pub open spec fn tools_model(items: Seq<JsonData>) -> Option<
    Seq<(Seq<char>, Seq<char>, JsonData)>,
>
    decreases items,
{
    if items.len() == 0 {
        Some(Seq::empty())
    } else {
        match (tools_model(items.drop_last()), tool_entry_model(items.last())) {
            (Some(s), Some(e)) => Some(s.push(e)),
            _ => None,
        }
    }
}

proof fn lemma_tools_model_none(items: Seq<JsonData>, i: int)
    requires
        0 <= i < items.len(),
        tool_entry_model(items[i]) is None,
    ensures
        tools_model(items) is None,
    decreases items.len(),
{
    if i == items.len() - 1 {
    } else {
        lemma_tools_model_none(items.drop_last(), i);
    }
}

/// Decodes the `result` of a `tools/list` call: the `tools` member, when
/// present, must be an array of well-formed entries; a missing `tools`
/// member means no tools.
#[verifier::loop_isolation(false)]
pub fn decode_tools_list_result(result: &JsonValue) -> (r: Result<Vec<MCToolInfo>, MCPError>)
    ensures
        match r {
            Ok(tools) => match result@.get_field("tools"@) {
                Some(JsonData::Arr(items)) => {
                    &&& tools_model(items) matches Some(m)
                    &&& tools@.len() == m.len()
                    &&& forall|i: int|
                        0 <= i < m.len() ==> (#[trigger] tools@[i]).name@ == m[i].0
                            && tools@[i].description@ == m[i].1 && tools@[i].input_schema@
                            == m[i].2
                },
                None => tools@.len() == 0,
                _ => false,
            },
            Err(e) => e is ProtocolError && match result@.get_field("tools"@) {
                Some(JsonData::Arr(items)) => tools_model(items) is None,
                Some(_) => true,
                None => false,
            },
        },
{
    let items: &Vec<JsonValue> = match result.get("tools") {
        None => {
            return Ok(Vec::new());
        }
        Some(JsonValue::Arr(items)) => items,
        Some(_) => {
            return Err(MCPError::ProtocolError(String::from_str("tools is not an array")));
        }
    };
    proof {
        lemma_json_seq_view(items@);
    }
    let ghost model_items = json_seq_view(items@);
    let mut out: Vec<MCToolInfo> = Vec::new();
    let mut i: usize = 0;
    while i < items.len()
        invariant
            i <= items@.len(),
            model_items == json_seq_view(items@),
            model_items.len() == items@.len(),
            forall|j: int| 0 <= j < items@.len() ==> model_items[j] == (#[trigger] items@[j])@,
            tools_model(model_items.subrange(0, i as int)) matches Some(m) && out@.len()
                == m.len() && forall|j: int|
                0 <= j < m.len() ==> (#[trigger] out@[j]).name@ == m[j].0 && out@[j].description@
                    == m[j].1 && out@[j].input_schema@ == m[j].2,
        decreases items@.len() - i,
    {
        let entry = &items[i];
        let name: String = match entry.get("name") {
            Some(JsonValue::Str(s)) => s.clone(),
            _ => {
                proof {
                    lemma_tools_model_none(model_items, i as int);
                }
                return Err(MCPError::ProtocolError(String::from_str("invalid tool entry")));
            }
        };
        let description: String = match entry.get("description") {
            Some(JsonValue::Str(s)) => s.clone(),
            _ => {
                proof {
                    lemma_tools_model_none(model_items, i as int);
                }
                return Err(MCPError::ProtocolError(String::from_str("invalid tool entry")));
            }
        };
        let input_schema: JsonValue = match entry.get("input_schema") {
            Some(v) => v.duplicate(),
            None => JsonValue::Null,
        };
        out.push(MCToolInfo { name, description, input_schema });
        proof {
            assert(model_items.subrange(0, i + 1 as int).drop_last() =~= model_items.subrange(
                0,
                i as int,
            ));
            assert(model_items.subrange(0, i + 1 as int).last() == model_items[i as int]);
        }
        i += 1;
    }
    proof {
        assert(model_items.subrange(0, items@.len() as int) =~= model_items);
    }
    Ok(out)
}

/// What a whole `tools/list` response means, as a function of the response
/// alone: `None` when it must be answered with an error — a top-level
/// `error`, a missing `result`, or a malformed `tools` member — otherwise
/// the decoded tool models.
pub open spec fn tools_list_model(resp: JsonData) -> Option<
    Seq<(Seq<char>, Seq<char>, JsonData)>,
> {
    if resp.get_field("error"@) is Some {
        None
    } else {
        match resp.get_field("result"@) {
            None => None,
            Some(result) => match result.get_field("tools"@) {
                None => Some(Seq::empty()),
                Some(JsonData::Arr(items)) => tools_model(items),
                Some(_) => None,
            },
        }
    }
}

/// What a whole `tools/call` response means, as a function of the response
/// alone: `None` when it must be answered with an error, otherwise the
/// result value's JSON text.
pub open spec fn call_tool_model(resp: JsonData) -> Option<Seq<char>> {
    if resp.get_field("error"@) is Some {
        None
    } else {
        match resp.get_field("result"@) {
            None => None,
            Some(result) => Some(json_text(result)),
        }
    }
}

/// The result string of a `tools/call` answer: the result value's JSON
/// text, whatever its inner structure.
pub fn extract_tool_result(result: &JsonValue) -> (r: String)
    ensures
        r@ == json_text(result@),
{
    to_json_text(result)
}

// ---------------------------------------------------------------------------
// The session itself
// ---------------------------------------------------------------------------

/// Builder for an MCP session.
#[derive(Debug)]
pub struct MCPClientBuilder {
    /// The host name, if set.
    pub name: Option<String>,
    /// The transport, if set.
    pub transport: Option<MCPTransport>,
    /// The timeout in milliseconds, if set.
    pub timeout_ms: Option<u64>,
}

impl MCPClientBuilder {
    /// A fresh builder with nothing set.
    pub fn new() -> (r: MCPClientBuilder)
        ensures
            r.name is None,
            r.transport is None,
            r.timeout_ms is None,
    {
        MCPClientBuilder { name: None, transport: None, timeout_ms: None }
    }

    /// Sets the host name.
    pub fn with_name(self, name: &str) -> (r: MCPClientBuilder)
        ensures
            r.name matches Some(n) && n@ == name@,
            r.transport == self.transport,
            r.timeout_ms == self.timeout_ms,
    {
        MCPClientBuilder { name: Some(String::from_str(name)), ..self }
    }

    /// Chooses the process transport, with the command to spawn.
    pub fn with_stdio_transport(self, command: &str, args: Vec<String>) -> (r: MCPClientBuilder)
        ensures
            r.transport matches Some(MCPTransport::Stdio { command: c, args: a, env: e }) && c@
                == command@ && a == args && e is None,
            r.name == self.name,
            r.timeout_ms == self.timeout_ms,
    {
        MCPClientBuilder {
            transport: Some(
                MCPTransport::Stdio { command: String::from_str(command), args, env: None },
            ),
            ..self
        }
    }

    /// Chooses the HTTP transport, with the host's base address.
    pub fn with_http_transport(self, url: &str) -> (r: MCPClientBuilder)
        ensures
            r.transport matches Some(MCPTransport::Http { url: u }) && u@ == url@,
            r.name == self.name,
            r.timeout_ms == self.timeout_ms,
    {
        MCPClientBuilder { transport: Some(MCPTransport::Http { url: String::from_str(url) }), ..self }
    }

    /// Chooses the SSE-labeled transport, with the host's base address.
    pub fn with_sse_transport(self, url: &str) -> (r: MCPClientBuilder)
        ensures
            r.transport matches Some(MCPTransport::Sse { url: u, auth: a }) && u@ == url@
                && a is None,
            r.name == self.name,
            r.timeout_ms == self.timeout_ms,
    {
        MCPClientBuilder {
            transport: Some(MCPTransport::Sse { url: String::from_str(url), auth: None }),
            ..self
        }
    }

    /// Sets the timeout, in milliseconds.
    pub fn with_timeout(self, timeout_ms: u64) -> (r: MCPClientBuilder)
        ensures
            r.timeout_ms == Some(timeout_ms),
            r.name == self.name,
            r.transport == self.transport,
    {
        MCPClientBuilder { timeout_ms: Some(timeout_ms), ..self }
    }

    /// Builds the session core. Fails exactly when the name or the transport
    /// is missing; a missing timeout falls back to the stock one.
    pub fn build(self) -> (r: Result<MCPClient, MCPError>)
        ensures
            match r {
                Ok(c) => {
                    &&& self.name matches Some(n) && c.spec_config().name == n
                    &&& self.transport matches Some(t) && c.spec_config().transport == t
                    &&& c.spec_config().timeout_ms == (match self.timeout_ms {
                        Some(t) => t,
                        None => 30000u64,
                    })
                    &&& !c.spec_connected()
                    &&& c.spec_next_id() == 0
                },
                Err(e) => {
                    &&& self.name is None || self.transport is None
                    &&& e is ConnectionError
                },
            },
    {
        let name = match self.name {
            Some(n) => n,
            None => {
                return Err(
                    MCPError::ConnectionError(String::from_str("MCP server name is required")),
                );
            }
        };
        let transport = match self.transport {
            Some(t) => t,
            None => {
                return Err(
                    MCPError::ConnectionError(String::from_str("MCP transport is required")),
                );
            }
        };
        let timeout_ms = match self.timeout_ms {
            Some(t) => t,
            None => default_timeout(),
        };
        Ok(
            MCPClient {
                config: MCPConfig { name, transport, timeout_ms },
                connected: false,
                next_id: 0,
            },
        )
    }
}

/// The session core: configuration, connection flag and the monotonically
/// increasing request-id counter. One request is in flight at a time; the
/// next parseable line after a request is taken as its response.
#[derive(Debug)]
pub struct MCPClient {
    config: MCPConfig,
    connected: bool,
    next_id: u64,
}

impl MCPClient {
    /// The session's configuration.
    pub closed spec fn spec_config(self) -> MCPConfig {
        self.config
    }

    /// Whether the session believes itself connected.
    pub closed spec fn spec_connected(self) -> bool {
        self.connected
    }

    /// The id the next request will carry.
    pub closed spec fn spec_next_id(self) -> u64 {
        self.next_id
    }

    /// A fresh builder.
    pub fn builder() -> (r: MCPClientBuilder)
        ensures
            r.name is None,
            r.transport is None,
            r.timeout_ms is None,
    {
        MCPClientBuilder::new()
    }

    /// The session's configuration.
    pub fn config(&self) -> (r: &MCPConfig)
        ensures
            *r == self.spec_config(),
    {
        &self.config
    }

    /// Whether the session believes itself connected.
    pub fn is_connected(&self) -> (r: bool)
        ensures
            r == self.spec_connected(),
    {
        self.connected
    }

    /// The serialized `initialize` envelope that opens the conversation.
    pub fn initialize_request_text(&self) -> (r: String)
        ensures
            r@ == json_text(initialize_envelope()),
    {
        let req = build_initialize_request();
        to_json_text(&req)
    }

    /// Records that the `initialize` exchange succeeded.
    pub fn mark_connected(&mut self)
        ensures
            final(self).spec_connected(),
            final(self).spec_config() == old(self).spec_config(),
            final(self).spec_next_id() == old(self).spec_next_id(),
    {
        self.connected = true;
    }

    /// Tears the session down; the request counter keeps its value, so ids
    /// stay unique for the session's whole life.
    pub fn disconnect(&mut self)
        ensures
            !final(self).spec_connected(),
            final(self).spec_config() == old(self).spec_config(),
            final(self).spec_next_id() == old(self).spec_next_id(),
    {
        self.connected = false;
    }

    /// Takes the next request id; the counter grows by one (and stays put
    /// only at the far end of its range).
    fn take_request_id(&mut self) -> (id: u64)
        ensures
            id == old(self).spec_next_id(),
            old(self).spec_next_id() < u64::MAX ==> final(self).spec_next_id() == old(
                self,
            ).spec_next_id() + 1,
            final(self).spec_config() == old(self).spec_config(),
            final(self).spec_connected() == old(self).spec_connected(),
    {
        let id = self.next_id;
        if self.next_id < u64::MAX {
            self.next_id = self.next_id + 1;
        }
        id
    }

    /// The serialized `tools/list` envelope, with empty parameters and this
    /// session's next request id.
    pub fn tools_list_request_text(&mut self) -> (r: String)
        ensures
            r@ == json_text(
                rpc_envelope(
                    dec_digits(old(self).spec_next_id() as nat),
                    "tools/list"@,
                    JsonData::Obj(Seq::empty()),
                ),
            ),
            old(self).spec_next_id() < u64::MAX ==> final(self).spec_next_id() == old(
                self,
            ).spec_next_id() + 1,
            final(self).spec_config() == old(self).spec_config(),
            final(self).spec_connected() == old(self).spec_connected(),
    {
        let id = self.take_request_id();
        let req = build_request(id, "tools/list", JsonValue::empty_object());
        to_json_text(&req)
    }

    /// The serialized `tools/call` envelope for `name` with `arguments`,
    /// with this session's next request id.
    pub fn call_tool_request_text(&mut self, name: &str, arguments: JsonValue) -> (r: String)
        ensures
            r@ == json_text(
                rpc_envelope(
                    dec_digits(old(self).spec_next_id() as nat),
                    "tools/call"@,
                    call_params(name@, arguments@),
                ),
            ),
            old(self).spec_next_id() < u64::MAX ==> final(self).spec_next_id() == old(
                self,
            ).spec_next_id() + 1,
            final(self).spec_config() == old(self).spec_config(),
            final(self).spec_connected() == old(self).spec_connected(),
    {
        let ghost args_view = arguments@;
        let mut params: Vec<(String, JsonValue)> = Vec::new();
        params.push((String::from_str("name"), JsonValue::Str(String::from_str(name))));
        params.push((String::from_str("arguments"), arguments));
        let ghost pv = params@;
        let params_value = JsonValue::Obj(params);
        proof {
            lemma_json_obj_view(pv);
            assert(json_obj_view(pv) =~= seq![
                ("name"@, JsonData::Str(name@)),
                ("arguments"@, args_view),
            ]);
        }
        let id = self.take_request_id();
        let req = build_request(id, "tools/call", params_value);
        to_json_text(&req)
    }

    /// Interprets a `tools/list` response: a top-level `error` or a missing
    /// `result` fails, otherwise the result's `tools` array is decoded.
    ///
    /// Transport parity: the outcome is pinned by `tools_list_model`, a
    /// function of the response alone — all three transports share this one
    /// path, so equivalent responses yield the same tool list everywhere.
    pub fn tools_list_response(&self, response: &JsonValue) -> (r: Result<
        Vec<MCToolInfo>,
        MCPError,
    >)
        ensures
            match r {
                Ok(tools) => {
                    &&& tools_list_model(response@) matches Some(m)
                    &&& tools@.len() == m.len()
                    &&& forall|i: int|
                        0 <= i < m.len() ==> (#[trigger] tools@[i]).name@ == m[i].0
                            && tools@[i].description@ == m[i].1 && tools@[i].input_schema@
                            == m[i].2
                },
                Err(_) => tools_list_model(response@) is None,
            },
    {
        let result = match interpret_response(response) {
            Ok(v) => v,
            Err(e) => {
                return Err(e);
            }
        };
        decode_tools_list_result(result)
    }

    /// Interprets a `tools/call` response: a top-level `error` or a missing
    /// `result` fails, otherwise the result's JSON text is the answer.
    ///
    /// Transport parity: the outcome is pinned by `call_tool_model`, a
    /// function of the response alone — all three transports share this one
    /// path, so equivalent responses yield the same result string
    /// everywhere.
    pub fn call_tool_response(&self, response: &JsonValue) -> (r: Result<String, MCPError>)
        ensures
            match r {
                Ok(s) => call_tool_model(response@) == Some(s@),
                Err(_) => call_tool_model(response@) is None,
            },
    {
        let result = match interpret_response(response) {
            Ok(v) => v,
            Err(e) => {
                return Err(e);
            }
        };
        Ok(extract_tool_result(result))
    }
}

} // verus!
