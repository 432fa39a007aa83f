//! A lightweight library for building multi-turn agents with tool calling.
//!
//! The core pieces are the agent loop, the streaming-event aggregator, the
//! tool registry and executor, and a transport-agnostic JSON-RPC session for
//! remote tool hosts. Conversation state lives in a session message log.

pub mod adapter;
pub mod agent;
pub mod aggregator;
pub mod error;
pub mod executor;
pub mod json;
pub mod llm;
pub mod mcp;
pub mod message;
pub mod permission;
pub mod registry;
pub mod session;
pub mod tool;

pub use agent::Agent;
pub use agent::AgentConfig;
pub use agent::AgentError;
pub use agent::AgentEvent;
pub use aggregator::ArgumentStrategy;
pub use aggregator::StreamAggregator;
pub use executor::ExecutionContext;
pub use executor::ToolExecutor;
pub use json::JsonValue;
pub use llm::FinishReason;
pub use llm::LLMClient;
pub use llm::LLMClientBuilder;
pub use llm::LLMError;
pub use llm::LLMEvent;
pub use llm::LLMInput;
pub use llm::LLMOutput;
pub use llm::Usage;
pub use mcp::MCPClient;
pub use mcp::MCPClientBuilder;
pub use mcp::MCPConfig;
pub use mcp::MCPError;
pub use mcp::MCPTransport;
pub use mcp::MCToolInfo;
pub use message::Message;
pub use message::MessageContent;
pub use message::MessageRole;
pub use permission::Permission;
pub use permission::PermissionAction;
pub use permission::PermissionContext;
pub use permission::PermissionManager;
pub use permission::PermissionResult;
pub use registry::ToolRegistry;
pub use session::ModelConfig;
pub use session::Session;
pub use session::SessionStatus;
pub use tool::Tool;
pub use tool::ToolDefinition;
pub use tool::ToolError;
pub use tool::ToolResult;
