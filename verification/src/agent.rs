//! The agent loop: build model input from the session, call the model,
//! dispatch the tool calls it requests, feed the results back, and repeat
//! until the model stops asking for tools or the step budget is spent.

use vstd::prelude::*;
use vstd::string::StrSliceExecFns;
use vstd::string::StringExecFns;
use crate::executor::ExecutionContext;
use crate::executor::ToolExecutor;
use crate::json::JsonValue;
use crate::llm::FinishReason;
use crate::llm::LLMClient;
use crate::llm::LLMError;
use crate::llm::LLMInput;
use crate::message::content_eq;
use crate::message::duplicate_log;
use crate::message::log_eq;
use crate::message::Message;
use crate::message::MessageContent;
use crate::message::MessageRole;
use crate::registry::ToolRegistry;
use crate::session::Session;
use crate::session::SessionStatus;
use crate::tool::Tool;
use crate::tool::ToolError;

verus! {

/// Configuration for the agent.
#[derive(Debug)]
pub struct AgentConfig {
    /// The model to use.
    pub model: String,
    /// The system prompt.
    pub system_prompt: String,
    /// Maximum number of steps in one run.
    pub max_steps: usize,
    /// Maximum tokens to generate.
    pub max_tokens: u32,
    /// Sampling temperature in thousandths, if any.
    pub temperature_milli: Option<u32>,
}

impl Default for AgentConfig {
    /// The stock configuration: at most 100 steps and 4096 tokens.
    fn default() -> (r: AgentConfig)
        ensures
            r.max_steps == 100,
            r.max_tokens == 4096,
            r.system_prompt@.len() == 0,
            r.temperature_milli is None,
    {
        let r = AgentConfig {
            model: String::from_str("MiniMax-M2.1"),
            system_prompt: String::new(),
            max_steps: 100,
            max_tokens: 4096,
            temperature_milli: None,
        };
        r
    }
}

/// Progress events surfaced while an agent is running.
#[derive(Debug)]
pub enum AgentEvent {
    /// A new message is starting.
    MessageStart { role: MessageRole },
    /// Text content arrived.
    Text { text: String },
    /// A tool is being called.
    ToolCall { name: String, args: JsonValue },
    /// A tool result arrived.
    ToolResult { name: String, result: String },
    /// The message is complete.
    MessageEnd { finish_reason: FinishReason },
    /// The run failed.
    Error { error: String },
}

/// Why a run failed.
#[derive(Debug)]
pub enum AgentError {
    /// The model adapter failed; this aborts the run.
    LLMError(LLMError),
    /// The step budget was spent. Kept in the taxonomy for callers; the loop
    /// itself returns the accumulated log instead of raising this.
    MaxStepsExceeded,
    /// A tool dispatch path failed unrecoverably.
    ToolError(ToolError),
}

impl AgentError {
    /// The rendered message for this error.
    pub open spec fn spec_message(self) -> Seq<char> {
        match self {
            AgentError::LLMError(e) => "LLM error: "@ + e.spec_message(),
            AgentError::MaxStepsExceeded => "Max steps exceeded"@,
            AgentError::ToolError(e) => "Tool error: "@ + e.spec_message(),
        }
    }

    /// Renders the error as text.
    pub fn message(&self) -> (r: String)
        ensures
            r@ == self.spec_message(),
    {
        match self {
            AgentError::LLMError(e) => {
                let mut out = String::from_str("LLM error: ");
                let inner = e.message();
                out.append(inner.as_str());
                out
            }
            AgentError::MaxStepsExceeded => {
                String::from_str("Max steps exceeded")
            }
            AgentError::ToolError(e) => {
                let mut out = String::from_str("Tool error: ");
                let inner = e.message();
                out.append(inner.as_str());
                out
            }
        }
    }
}

/// The tool-call blocks of a content sequence, in order.
pub open spec fn calls_of(s: Seq<MessageContent>) -> Seq<MessageContent>
    decreases s,
{
    if s.len() == 0 {
        Seq::empty()
    } else if s.last().is_call() {
        calls_of(s.drop_last()).push(s.last())
    } else {
        calls_of(s.drop_last())
    }
}

/// Whether `results` answers `calls`: one result block per call, in the same
/// order, each correlated back to its call id.
pub open spec fn results_correlate(
    calls: Seq<MessageContent>,
    results: Seq<MessageContent>,
) -> bool {
    &&& results.len() == calls.len()
    &&& forall|k: int|
        0 <= k < calls.len() ==> (#[trigger] results[k]).is_result()
            && results[k].result_call_id() == calls[k].call_id()
}

/// The shape of a message log produced by one batch run.
///
/// `pre` is the log before the run, `post` after it; `input` is the user
/// input; `max_steps` the step budget. The run appends one user message,
/// then alternating assistant and tool messages: every tool message answers
/// exactly the calls of the assistant message before it, and the run ends
/// either on an assistant message without tool calls or when the budget is
/// spent (which by design returns the log as-is rather than raising).
pub open spec fn run_log_shape(
    pre: Seq<Message>,
    post: Seq<Message>,
    input: Seq<char>,
    max_steps: int,
) -> bool {
    let n = pre.len() as int;
    &&& post.len() > n
    &&& forall|i: int| 0 <= i < n ==> post[i] == pre[i]
    &&& post[n].role == MessageRole::User
    &&& post[n].content@.len() == 1
    &&& post[n].content@[0].is_text()
    &&& post[n].content@[0].text_of() == input
    &&& forall|j: int|
        n < j < post.len() ==> (#[trigger] post[j]).role == (if (j - n) % 2 == 1 {
            MessageRole::Assistant
        } else {
            MessageRole::Tool
        })
    &&& forall|j: int|
        n < j < post.len() && (j - n) % 2 == 0 ==> results_correlate(
            calls_of((#[trigger] post[j - 1]).content@),
            post[j].content@,
        ) && calls_of(post[j - 1].content@).len() >= 1
    &&& ({
        let appended = post.len() - n - 1;
        ||| appended == 2 * max_steps
        ||| (appended % 2 == 1 && appended <= 2 * max_steps - 1 && calls_of(
            post.last().content@,
        ).len() == 0)
    })
}

/// Extracts deep copies of the tool-call blocks of `content`, in order.
#[verifier::loop_isolation(false)]
fn extract_calls(content: &Vec<MessageContent>) -> (r: Vec<MessageContent>)
    ensures
        r@.len() == calls_of(content@).len(),
        forall|k: int|
            0 <= k < r@.len() ==> content_eq(#[trigger] r@[k], calls_of(content@)[k])
                && r@[k].is_call(),
{
    let mut out: Vec<MessageContent> = Vec::new();
    let mut i: usize = 0;
    while i < content.len()
        invariant
            i <= content@.len(),
            out@.len() == calls_of(content@.subrange(0, i as int)).len(),
            forall|k: int|
                0 <= k < out@.len() ==> content_eq(
                    #[trigger] out@[k],
                    calls_of(content@.subrange(0, i as int))[k],
                ) && out@[k].is_call(),
        decreases content@.len() - i,
    {
        let is_call_block = match &content[i] {
            MessageContent::ToolCall { .. } => true,
            _ => false,
        };
        if is_call_block {
            let d = content[i].duplicate();
            out.push(d);
        }
        proof {
            assert(content@.subrange(0, i + 1 as int).drop_last() =~= content@.subrange(
                0,
                i as int,
            ));
            assert(content@.subrange(0, i + 1 as int).last() == content@[i as int]);
        }
        i += 1;
    }
    proof {
        assert(content@.subrange(0, content@.len() as int) =~= content@);
    }
    out
}

/// The agent: a session, a model adapter, a tool executor and a
/// configuration, driving runs to completion.
pub struct Agent<L: LLMClient, T: Tool> {
    session: Session,
    llm_client: L,
    tool_executor: ToolExecutor<T>,
    config: AgentConfig,
}

impl<L: LLMClient, T: Tool> Agent<L, T> {
    /// The session driven by this agent.
    pub closed spec fn spec_session(self) -> Session {
        self.session
    }

    /// The configuration of this agent.
    pub closed spec fn spec_config(self) -> AgentConfig {
        self.config
    }

    /// The tool executor of this agent.
    pub closed spec fn spec_executor(self) -> ToolExecutor<T> {
        self.tool_executor
    }

    /// A fresh agent over the given session, adapter, registry and
    /// configuration.
    pub fn new(session: Session, llm_client: L, registry: ToolRegistry<T>, config: AgentConfig)
        -> (r: Agent<L, T>)
        ensures
            r.spec_session() == session,
            r.spec_config() == config,
            r.spec_executor().spec_registry() == registry,
    {
        let tool_executor = ToolExecutor::new(registry);
        Agent { session, llm_client, tool_executor, config }
    }

    /// A fresh agent with the stock configuration.
    pub fn with_defaults(session: Session, llm_client: L, registry: ToolRegistry<T>) -> (r: Agent<
        L,
        T,
    >)
        ensures
            r.spec_session() == session,
            r.spec_executor().spec_registry() == registry,
            r.spec_config().max_steps == 100,
    {
        Agent::new(session, llm_client, registry, AgentConfig::default())
    }

    /// The session id.
    pub fn session_id(&self) -> (r: String)
        ensures
            r@ == self.spec_session().id@,
    {
        self.session.id.clone()
    }

    /// A copy of the current message log.
    pub fn messages(&self) -> (r: Vec<Message>)
        ensures
            log_eq(r@, self.spec_session().messages@),
    {
        duplicate_log(&self.session.messages)
    }

    /// The model input for the next turn: the full message log, the system
    /// prompt, the configured model and limits, and the definition of every
    /// registered tool, unmodified.
    pub fn build_input(&self) -> (r: LLMInput)
        ensures
            r.model@ == self.spec_config().model@,
            r.system_prompt@ == self.spec_config().system_prompt@,
            r.max_tokens == self.spec_session().model.max_tokens,
            r.temperature_milli == self.spec_config().temperature_milli,
            log_eq(r.messages@, self.spec_session().messages@),
            r.tools@.len() == self.spec_executor().spec_registry().entries().len(),
            forall|i: int|
                0 <= i < r.tools@.len() ==> {
                    let entry = self.spec_executor().spec_registry().entries()[i].1;
                    (#[trigger] r.tools@[i]).name@ == entry.spec_name()
                        && r.tools@[i].description@ == entry.spec_description()
                        && r.tools@[i].input_schema@ == entry.spec_schema()
                },
    {
        LLMInput {
            model: self.config.model.clone(),
            messages: duplicate_log(&self.session.messages),
            system_prompt: self.config.system_prompt.clone(),
            tools: self.tool_executor.get_tool_definitions(),
            max_tokens: self.session.model.max_tokens,
            temperature_milli: self.config.temperature_milli,
        }
    }

    /// Appends the user input and runs the loop until the model stops
    /// requesting tools or the step budget is spent; returns a copy of the
    /// full log. Only a model-adapter failure aborts the run.
    #[verifier::loop_isolation(false)]
    pub fn run(&mut self, user_input: &str) -> (r: Result<Vec<Message>, AgentError>)
        ensures
            final(self).spec_config() == old(self).spec_config(),
            final(self).spec_executor() == old(self).spec_executor(),
            final(self).spec_session().id == old(self).spec_session().id,
            match r {
                Ok(log) => {
                    &&& final(self).spec_session().status == SessionStatus::Completed
                    &&& log_eq(log@, final(self).spec_session().messages@)
                    &&& run_log_shape(
                        old(self).spec_session().messages@,
                        final(self).spec_session().messages@,
                        user_input@,
                        old(self).spec_config().max_steps as int,
                    )
                },
                Err(e) => {
                    &&& final(self).spec_session().status == SessionStatus::Error
                    &&& e is LLMError
                    &&& final(self).spec_session().messages@.len() > old(self).spec_session().messages@.len()
                    &&& forall|i: int|
                        0 <= i < old(self).spec_session().messages@.len() ==> final(self).spec_session().messages@[i] == old(self).spec_session().messages@[i]
                },
            },
    {
        let ghost pre = self.session.messages@;
        let ghost n = pre.len() as int;
        let user_msg = Message::new_user(user_input);
        self.session.add_message(user_msg);
        self.session.set_status(SessionStatus::Running);

        let max_steps = self.config.max_steps;
        let mut step: usize = 0;
        while step < max_steps
            invariant
                self.config == old(self).config,
                self.llm_client == old(self).llm_client,
                self.tool_executor == old(self).tool_executor,
                self.session.id == old(self).session.id,
                self.session.system_prompt == old(self).session.system_prompt,
                self.session.model == old(self).session.model,
                self.session.status == SessionStatus::Running,
                max_steps == self.config.max_steps,
                step <= max_steps,
                self.session.messages@.len() == n + 1 + 2 * step,
                forall|i: int| 0 <= i < n ==> self.session.messages@[i] == pre[i],
                self.session.messages@[n].role == MessageRole::User,
                self.session.messages@[n].content@.len() == 1,
                self.session.messages@[n].content@[0].is_text(),
                self.session.messages@[n].content@[0].text_of() == user_input@,
                forall|j: int|
                    n < j < self.session.messages@.len() ==> (#[trigger] self.session.messages@[j]).role
                        == (if (j - n) % 2 == 1 {
                        MessageRole::Assistant
                    } else {
                        MessageRole::Tool
                    }),
                forall|j: int|
                    n < j < self.session.messages@.len() && (j - n) % 2 == 0
                        ==> results_correlate(
                        calls_of((#[trigger] self.session.messages@[j - 1]).content@),
                        self.session.messages@[j].content@,
                    ) && calls_of(self.session.messages@[j - 1].content@).len() >= 1,
            decreases max_steps - step,
        {
            let input = self.build_input();

            let response = match self.llm_client.complete(input) {
                Ok(o) => o,
                Err(e) => {
                    self.session.set_status(SessionStatus::Error);
                    return Err(AgentError::LLMError(e));
                }
            };

            let tool_calls = extract_calls(&response.content);
            let assistant = Message::new_assistant(response.content);
            let message_id = assistant.id.clone();
            let ghost assistant_content = assistant.content@;
            self.session.add_message(assistant);

            if tool_calls.len() == 0 {
                self.session.set_status(SessionStatus::Completed);
                let log = duplicate_log(&self.session.messages);
                proof {
                    let post = self.session.messages@;
                    assert(post.last().content@ == assistant_content);
                    assert(calls_of(post.last().content@).len() == 0);
                    assert(post.len() - n - 1 == 2 * step + 1);
                }
                return Ok(log);
            }

            let session_id = self.session.id.clone();
            let ctx = ExecutionContext { session_id, message_id };
            let results = self.tool_executor.execute_all(tool_calls, ctx);
            let ghost results_view = results@;
            let tool_msg = Message::new_tool_result(results);
            self.session.add_message(tool_msg);

            proof {
                let post = self.session.messages@;
                let a = post.len() - 2;
                assert(post[a as int].content@ == assistant_content);
                assert(post[post.len() - 1].content@ == results_view);
                assert(results_correlate(calls_of(assistant_content), results_view));
            }

            step += 1;
        }

        self.session.set_status(SessionStatus::Completed);
        let log = duplicate_log(&self.session.messages);
        proof {
            assert(self.session.messages@.len() - n - 1 == 2 * max_steps);
        }
        Ok(log)
    }
}

/// Every tool registered with an agent surfaces in the model input that
/// `build_input` assembles, unmodified: a binding of `name` to `t` puts a
/// definition with exactly `t`'s name, description and schema in the input
/// tool list. Discovered remote tools enter the registry through the same
/// adapters, so the statement covers them alike.
pub proof fn lemma_input_surfaces_registered_tool<L: LLMClient, T: Tool>(
    agent: Agent<L, T>,
    input_tools: Seq<crate::tool::ToolDefinition>,
    name: Seq<char>,
    t: T,
)
    requires
        agent.spec_executor().spec_registry().has_binding(name, t),
        input_tools.len() == agent.spec_executor().spec_registry().entries().len(),
        forall|i: int|
            0 <= i < input_tools.len() ==> {
                let entry = agent.spec_executor().spec_registry().entries()[i].1;
                (#[trigger] input_tools[i]).name@ == entry.spec_name()
                    && input_tools[i].description@ == entry.spec_description()
                    && input_tools[i].input_schema@ == entry.spec_schema()
            },
    ensures
        exists|i: int|
            0 <= i < input_tools.len() && (#[trigger] input_tools[i]).name@ == t.spec_name()
                && input_tools[i].description@ == t.spec_description()
                && input_tools[i].input_schema@ == t.spec_schema(),
{
    crate::registry::lemma_registered_tool_surfaced(
        agent.spec_executor().spec_registry(),
        input_tools,
        name,
        t,
    );
}

/// A run against a model that never requests tools makes exactly one step:
/// the log grows by exactly one user and one assistant message.
pub proof fn lemma_zero_calls_two_messages(
    pre: Seq<Message>,
    post: Seq<Message>,
    input: Seq<char>,
    max_steps: int,
)
    requires
        run_log_shape(pre, post, input, max_steps),
        max_steps >= 1,
        forall|j: int|
            pre.len() < j < post.len() && (#[trigger] post[j]).role == MessageRole::Assistant
                ==> calls_of(post[j].content@).len() == 0,
    ensures
        post.len() == pre.len() + 2,
{
    let n = pre.len() as int;
    let appended = post.len() - n - 1;
    if appended >= 2 {
        let j = n + 2;
        assert(n < j < post.len());
        assert((j - n) % 2 == 0);
        assert(calls_of(post[j - 1].content@).len() >= 1);
        assert(post[j - 1].role == MessageRole::Assistant);
        assert(calls_of(post[j - 1].content@).len() == 0);
        assert(false);
    }
    assert(appended == 1);
}

/// A run against a model that always requests exactly one tool call spends
/// the whole step budget: the log grows by one user message plus one
/// assistant and one tool message per step, and no error is raised.
pub proof fn lemma_always_calls_budget_spent(
    pre: Seq<Message>,
    post: Seq<Message>,
    input: Seq<char>,
    max_steps: int,
)
    requires
        run_log_shape(pre, post, input, max_steps),
        max_steps >= 1,
        forall|j: int|
            pre.len() < j < post.len() && (#[trigger] post[j]).role == MessageRole::Assistant
                ==> calls_of(post[j].content@).len() == 1,
    ensures
        post.len() == pre.len() + 1 + 2 * max_steps,
{
    let n = pre.len() as int;
    let appended = post.len() - n - 1;
    if appended % 2 == 1 {
        assert(post.last().role == MessageRole::Assistant);
        assert(calls_of(post.last().content@).len() == 0);
        assert(calls_of(post.last().content@).len() == 1);
        assert(false);
    }
    assert(appended == 2 * max_steps);
}

} // verus!
