//! Messages of a conversation: text runs, tool-call requests and tool
//! results, each immutable once appended to a session log.

use vstd::prelude::*;
use vstd::string::StringExecFns;
use crate::json::JsonData;
use crate::json::JsonValue;

verus! {

/// The role of a message sender.
#[derive(Debug, Clone, Copy, PartialEq, Eq, Structural)]
pub enum MessageRole {
    /// User input.
    User,
    /// Model output.
    Assistant,
    /// Tool results fed back to the model.
    Tool,
}

/// One content block of a message.
#[derive(Debug, PartialEq, Eq)]
pub enum MessageContent {
    /// Plain text.
    Text { text: String },
    /// A model-requested tool invocation.
    ToolCall { id: String, name: String, arguments: JsonValue },
    /// The outcome of a tool invocation, correlated by call id.
    ToolResult { tool_call_id: String, result: String, is_error: Option<bool> },
}

impl MessageContent {
    pub open spec fn is_text(self) -> bool {
        self matches MessageContent::Text { .. }
    }

    pub open spec fn text_of(self) -> Seq<char> {
        match self {
            MessageContent::Text { text } => text@,
            _ => Seq::empty(),
        }
    }

    pub open spec fn is_call(self) -> bool {
        self matches MessageContent::ToolCall { .. }
    }

    pub open spec fn call_id(self) -> Seq<char> {
        match self {
            MessageContent::ToolCall { id, .. } => id@,
            _ => Seq::empty(),
        }
    }

    pub open spec fn call_name(self) -> Seq<char> {
        match self {
            MessageContent::ToolCall { name, .. } => name@,
            _ => Seq::empty(),
        }
    }

    pub open spec fn call_args(self) -> JsonData {
        match self {
            MessageContent::ToolCall { arguments, .. } => arguments@,
            _ => JsonData::Null,
        }
    }

    pub open spec fn is_result(self) -> bool {
        self matches MessageContent::ToolResult { .. }
    }

    pub open spec fn result_call_id(self) -> Seq<char> {
        match self {
            MessageContent::ToolResult { tool_call_id, .. } => tool_call_id@,
            _ => Seq::empty(),
        }
    }

    pub open spec fn result_text(self) -> Seq<char> {
        match self {
            MessageContent::ToolResult { result, .. } => result@,
            _ => Seq::empty(),
        }
    }

    pub open spec fn result_is_error(self) -> Option<bool> {
        match self {
            MessageContent::ToolResult { is_error, .. } => is_error,
            _ => None,
        }
    }

    /// A deep copy, equal to the original in the model.
    pub fn duplicate(&self) -> (r: MessageContent)
        ensures
            content_eq(r, *self),
    {
        match self {
            MessageContent::Text { text } => MessageContent::Text { text: text.clone() },
            MessageContent::ToolCall { id, name, arguments } => MessageContent::ToolCall {
                id: id.clone(),
                name: name.clone(),
                arguments: arguments.duplicate(),
            },
            MessageContent::ToolResult { tool_call_id, result, is_error } => {
                MessageContent::ToolResult {
                    tool_call_id: tool_call_id.clone(),
                    result: result.clone(),
                    is_error: *is_error,
                }
            }
        }
    }
}

/// Model-level equality of two content blocks: same kind, same strings, and
/// arguments equal as JSON data.
pub open spec fn content_eq(a: MessageContent, b: MessageContent) -> bool {
    match (a, b) {
        (MessageContent::Text { text: ta }, MessageContent::Text { text: tb }) => ta@ == tb@,
        (
            MessageContent::ToolCall { id: ia, name: na, arguments: aa },
            MessageContent::ToolCall { id: ib, name: nb, arguments: ab },
        ) => ia@ == ib@ && na@ == nb@ && aa@ == ab@,
        (
            MessageContent::ToolResult { tool_call_id: ia, result: ra, is_error: ea },
            MessageContent::ToolResult { tool_call_id: ib, result: rb, is_error: eb },
        ) => ia@ == ib@ && ra@ == rb@ && ea == eb,
        _ => false,
    }
}

/// A message in a conversation, immutable once appended to a session.
#[derive(Debug)]
pub struct Message {
    /// Unique identifier.
    pub id: String,
    /// Who produced the message.
    pub role: MessageRole,
    /// The ordered content blocks; their order is meaningful.
    pub content: Vec<MessageContent>,
    /// Creation time, in milliseconds since the Unix epoch.
    pub created_at: i64,
}

/// Model-level equality of two messages.
pub open spec fn message_eq(a: Message, b: Message) -> bool {
    &&& a.id@ == b.id@
    &&& a.role == b.role
    &&& a.created_at == b.created_at
    &&& a.content@.len() == b.content@.len()
    &&& forall|i: int|
        0 <= i < a.content@.len() ==> content_eq(#[trigger] a.content@[i], b.content@[i])
}

/// Model-level equality of two message logs.
pub open spec fn log_eq(a: Seq<Message>, b: Seq<Message>) -> bool {
    a.len() == b.len() && forall|i: int| 0 <= i < a.len() ==> message_eq(#[trigger] a[i], b[i])
}

/// Relies on uuid::Uuid::new_v4 and its hyphenated text form, which is
/// 36 characters long; the value itself is random, so nothing more is
/// promised.
#[verifier::external_body]
pub(crate) fn new_uuid_string() -> (r: String)
    ensures
        r@.len() == 36,
{
    uuid::Uuid::new_v4().to_string()
}

/// Relies on chrono::Utc::now for the current wall-clock time; the value
/// depends on the clock, so nothing is promised of it.
#[verifier::external_body]
pub(crate) fn now_timestamp_millis() -> i64 {
    chrono::Utc::now().timestamp_millis()
}

impl Message {
    /// A fresh user message holding one text block.
    pub fn new_user(text: &str) -> (m: Message)
        ensures
            m.role == MessageRole::User,
            m.content@.len() == 1,
            m.content@[0].is_text(),
            m.content@[0].text_of() == text@,
    {
        let mut content: Vec<MessageContent> = Vec::new();
        content.push(MessageContent::Text { text: String::from_str(text) });
        Message {
            id: new_uuid_string(),
            role: MessageRole::User,
            content,
            created_at: now_timestamp_millis(),
        }
    }

    /// A fresh assistant message carrying the given content blocks.
    pub fn new_assistant(content: Vec<MessageContent>) -> (m: Message)
        ensures
            m.role == MessageRole::Assistant,
            m.content@ == content@,
    {
        Message {
            id: new_uuid_string(),
            role: MessageRole::Assistant,
            content,
            created_at: now_timestamp_millis(),
        }
    }

    /// A fresh tool-role message carrying the given result blocks.
    pub fn new_tool_result(results: Vec<MessageContent>) -> (m: Message)
        ensures
            m.role == MessageRole::Tool,
            m.content@ == results@,
    {
        Message {
            id: new_uuid_string(),
            role: MessageRole::Tool,
            content: results,
            created_at: now_timestamp_millis(),
        }
    }

    /// A deep copy, equal to the original in the model.
    #[verifier::loop_isolation(false)]
    pub fn duplicate(&self) -> (r: Message)
        ensures
            message_eq(r, *self),
    {
        let mut content: Vec<MessageContent> = Vec::new();
        let mut i: usize = 0;
        while i < self.content.len()
            invariant
                i <= self.content@.len(),
                content@.len() == i,
                forall|j: int|
                    0 <= j < i ==> content_eq(#[trigger] content@[j], self.content@[j]),
            decreases self.content@.len() - i,
        {
            let block = self.content[i].duplicate();
            content.push(block);
            i += 1;
        }
        Message {
            id: self.id.clone(),
            role: self.role,
            content,
            created_at: self.created_at,
        }
    }
}

/// A deep copy of a message log, equal to the original in the model.
#[verifier::loop_isolation(false)]
pub fn duplicate_log(messages: &Vec<Message>) -> (r: Vec<Message>)
    ensures
        log_eq(r@, messages@),
{
    let mut out: Vec<Message> = Vec::new();
    let mut i: usize = 0;
    while i < messages.len()
        invariant
            i <= messages@.len(),
            out@.len() == i,
            forall|j: int| 0 <= j < i ==> message_eq(#[trigger] out@[j], messages@[j]),
        decreases messages@.len() - i,
    {
        let m = messages[i].duplicate();
        out.push(m);
        i += 1;
    }
    out
}

} // verus!
