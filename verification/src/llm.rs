//! The boundary to the language-model adapter: normalized input, output and
//! streaming events, and the client contract an adapter implements.

use vstd::prelude::*;
use vstd::string::StringExecFns;
use crate::message::Message;
use crate::message::MessageContent;
use crate::tool::ToolDefinition;

verus! {

/// One normalized model request.
#[derive(Debug)]
pub struct LLMInput {
    /// The model to use.
    pub model: String,
    /// The full message log so far.
    pub messages: Vec<Message>,
    /// The system prompt.
    pub system_prompt: String,
    /// The tools the model may call.
    pub tools: Vec<ToolDefinition>,
    /// Maximum tokens to generate.
    pub max_tokens: u32,
    /// Sampling temperature in thousandths, if any.
    pub temperature_milli: Option<u32>,
}

/// The reason the model stopped generating.
#[derive(Debug, Clone, Copy, PartialEq, Eq, Structural)]
pub enum FinishReason {
    /// Natural stop point reached.
    Stop,
    /// Stopped to request tool calls.
    ToolCalls,
    /// The token limit was reached.
    MaxTokens,
    /// Stopped because of an error.
    Error,
}

/// Token usage counters.
#[derive(Debug, Clone, Copy, PartialEq, Eq, Structural)]
pub struct Usage {
    /// Tokens read.
    pub input_tokens: u32,
    /// Tokens produced.
    pub output_tokens: u32,
}

/// One complete model response.
#[derive(Debug)]
pub struct LLMOutput {
    /// The produced content blocks.
    pub content: Vec<MessageContent>,
    /// Why generation stopped.
    pub finish_reason: FinishReason,
    /// Token usage.
    pub usage: Usage,
}

/// One incremental event of a streaming model response.
#[derive(Debug)]
pub enum LLMEvent {
    /// A chunk of text.
    TextDelta { text: String },
    /// A tool call opened.
    ToolCallStart { id: String, name: String },
    /// A fragment of a tool call's arguments.
    ToolCallDelta { id: String, arguments: String },
    /// A tool call closed.
    ToolCallEnd { id: String },
    /// The response finished.
    Finish { reason: FinishReason, usage: Usage },
    /// The response failed.
    Error { error: String },
}

/// Why a model request failed.
#[derive(Debug)]
pub enum LLMError {
    /// The service reported an error.
    ApiError(String),
    /// The request could not be carried.
    NetworkError(String),
    /// The response could not be understood.
    InvalidResponse(String),
    /// Authentication failed.
    AuthError(String),
    /// The service limited the request rate.
    RateLimitError(String),
}

impl LLMError {
    /// The rendered message for this error.
    pub open spec fn spec_message(self) -> Seq<char> {
        match self {
            LLMError::ApiError(s) => "API error: "@ + s@,
            LLMError::NetworkError(s) => "Network error: "@ + s@,
            LLMError::InvalidResponse(s) => "Invalid response: "@ + s@,
            LLMError::AuthError(s) => "Authentication failed: "@ + s@,
            LLMError::RateLimitError(s) => "Rate limit exceeded: "@ + s@,
        }
    }

    /// Renders the error as text.
    pub fn message(&self) -> (r: String)
        ensures
            r@ == self.spec_message(),
    {
        match self {
            LLMError::ApiError(s) => {
                let mut out = String::from_str("API error: ");
                out.append(s.as_str());
                out
            }
            LLMError::NetworkError(s) => {
                let mut out = String::from_str("Network error: ");
                out.append(s.as_str());
                out
            }
            LLMError::InvalidResponse(s) => {
                let mut out = String::from_str("Invalid response: ");
                out.append(s.as_str());
                out
            }
            LLMError::AuthError(s) => {
                let mut out = String::from_str("Authentication failed: ");
                out.append(s.as_str());
                out
            }
            LLMError::RateLimitError(s) => {
                let mut out = String::from_str("Rate limit exceeded: ");
                out.append(s.as_str());
                out
            }
        }
    }
}

/// The blocking client contract a model adapter implements. What the model
/// answers is the adapter's business, so `complete` carries no contract; the
/// agent loop states what holds of every possible answer.
pub trait LLMClient: Sized {
    /// Sends one request and returns the complete response.
    fn complete(&self, input: LLMInput) -> Result<LLMOutput, LLMError>;
}

/// A builder collecting the settings a concrete client needs.
#[derive(Debug)]
pub struct LLMClientBuilder {
    /// The API key, if set.
    pub api_key: Option<String>,
    /// The service base address, if set.
    pub base_url: Option<String>,
    /// The request timeout in milliseconds, if set.
    pub timeout_ms: Option<u64>,
}

impl LLMClientBuilder {
    /// A fresh builder with nothing set.
    pub fn new() -> (r: LLMClientBuilder)
        ensures
            r.api_key is None,
            r.base_url is None,
            r.timeout_ms is None,
    {
        LLMClientBuilder { api_key: None, base_url: None, timeout_ms: None }
    }

    /// Sets the API key.
    pub fn with_api_key(self, api_key: &str) -> (r: LLMClientBuilder)
        ensures
            r.api_key matches Some(k) && k@ == api_key@,
            r.base_url == self.base_url,
            r.timeout_ms == self.timeout_ms,
    {
        LLMClientBuilder { api_key: Some(String::from_str(api_key)), ..self }
    }

    /// Sets the service base address.
    pub fn with_base_url(self, base_url: &str) -> (r: LLMClientBuilder)
        ensures
            r.base_url matches Some(u) && u@ == base_url@,
            r.api_key == self.api_key,
            r.timeout_ms == self.timeout_ms,
    {
        LLMClientBuilder { base_url: Some(String::from_str(base_url)), ..self }
    }

    /// Sets the request timeout, in milliseconds.
    pub fn with_timeout(self, timeout_ms: u64) -> (r: LLMClientBuilder)
        ensures
            r.timeout_ms == Some(timeout_ms),
            r.api_key == self.api_key,
            r.base_url == self.base_url,
    {
        LLMClientBuilder { timeout_ms: Some(timeout_ms), ..self }
    }
}

} // verus!
