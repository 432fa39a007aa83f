//! A conversation session: an ordered message log, a system prompt, a model
//! configuration and a run status.

use vstd::prelude::*;
use vstd::string::StringExecFns;
use crate::json::JsonValue;
use crate::message::Message;

verus! {

/// The status of a session. Within one run the transitions are monotonic:
/// `Idle` to `Running` to `Completed` or `Error`.
#[derive(Debug, Clone, Copy, PartialEq, Eq, Structural)]
pub enum SessionStatus {
    /// Waiting for input.
    Idle,
    /// A run is in progress.
    Running,
    /// The last run finished.
    Completed,
    /// The last run failed.
    Error,
}

/// Configuration for the language model behind a session.
#[derive(Debug)]
pub struct ModelConfig {
    /// The model name.
    pub name: String,
    /// Maximum number of tokens to generate.
    pub max_tokens: u32,
    /// Sampling temperature in thousandths, if any.
    pub temperature_milli: Option<u32>,
    /// Additional model-specific parameters, if any.
    pub extra: Option<Vec<(String, JsonValue)>>,
}

impl Default for ModelConfig {
    /// The stock configuration: "gpt-4o", 4096 tokens, no temperature.
    fn default() -> (r: ModelConfig)
        ensures
            r.name@ == "gpt-4o"@,
            r.max_tokens == 4096,
            r.temperature_milli is None,
            r.extra is None,
    {
        ModelConfig {
            name: String::from_str("gpt-4o"),
            max_tokens: 4096,
            temperature_milli: None,
            extra: None,
        }
    }
}

/// A conversation session.
#[derive(Debug)]
pub struct Session {
    /// Unique identifier.
    pub id: String,
    /// The ordered message log; appended to only by the agent loop.
    pub messages: Vec<Message>,
    /// The system prompt for the agent.
    pub system_prompt: String,
    /// The model configuration.
    pub model: ModelConfig,
    /// The current status.
    pub status: SessionStatus,
}

impl Session {
    /// A fresh session with the given model configuration and system prompt,
    /// an empty log, and status `Idle`.
    pub fn new(model: ModelConfig, system_prompt: &str) -> (s: Session)
        ensures
            s.messages@.len() == 0,
            s.system_prompt@ == system_prompt@,
            s.model == model,
            s.status == SessionStatus::Idle,
            s.id@.len() == 36,
    {
        Session {
            id: crate::message::new_uuid_string(),
            messages: Vec::new(),
            system_prompt: String::from_str(system_prompt),
            model,
            status: SessionStatus::Idle,
        }
    }

    /// A fresh session with the stock model configuration.
    pub fn with_default_model(system_prompt: &str) -> (s: Session)
        ensures
            s.messages@.len() == 0,
            s.system_prompt@ == system_prompt@,
            s.status == SessionStatus::Idle,
            s.model.name@ == "gpt-4o"@,
            s.model.max_tokens == 4096,
    {
        Session::new(ModelConfig::default(), system_prompt)
    }

    /// Appends one message to the log; nothing else changes.
    pub fn add_message(&mut self, message: Message)
        ensures
            final(self).messages@ == old(self).messages@.push(message),
            final(self).id == old(self).id,
            final(self).system_prompt == old(self).system_prompt,
            final(self).model == old(self).model,
            final(self).status == old(self).status,
    {
        self.messages.push(message);
    }

    /// Moves the session to the given status; nothing else changes.
    pub fn set_status(&mut self, status: SessionStatus)
        ensures
            final(self).status == status,
            final(self).id == old(self).id,
            final(self).messages == old(self).messages,
            final(self).system_prompt == old(self).system_prompt,
            final(self).model == old(self).model,
    {
        self.status = status;
    }

    /// The number of messages in the log.
    pub fn message_count(&self) -> (n: usize)
        ensures
            n == self.messages@.len(),
    {
        self.messages.len()
    }

    /// Empties the log; nothing else changes.
    pub fn clear_messages(&mut self)
        ensures
            final(self).messages@.len() == 0,
            final(self).id == old(self).id,
            final(self).system_prompt == old(self).system_prompt,
            final(self).model == old(self).model,
            final(self).status == old(self).status,
    {
        self.messages.clear();
    }
}

impl Default for Session {
    /// A fresh session with the stock model configuration and an empty
    /// system prompt.
    fn default() -> (s: Session)
        ensures
            s.messages@.len() == 0,
            s.system_prompt@.len() == 0,
            s.status == SessionStatus::Idle,
    {
        let s = Session::with_default_model("");
        proof {
            reveal_strlit("");
            assert(""@.len() == 0);
        }
        s
    }
}

} // verus!
