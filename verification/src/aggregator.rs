//! The stream aggregator: folds an ordered, finite sequence of incremental
//! model events into finalized message content, while surfacing
//! caller-visible progress events.
//!
//! How argument fragments are treated is configurable: either each fragment
//! is a complete JSON value that replaces what came before, or fragments
//! are concatenated and parsed once when the call closes.

use vstd::prelude::*;
use vstd::string::StringExecFns;
use crate::agent::AgentEvent;
use crate::json::JsonData;
use crate::json::JsonValue;
use crate::llm::FinishReason;
use crate::llm::LLMEvent;
use crate::mcp::parse_json_text;
use crate::mcp::parsed_json;
use crate::message::MessageContent;

verus! {

/// How incoming argument fragments build a tool call's arguments.
#[derive(Debug, Clone, Copy, PartialEq, Eq, Structural)]
pub enum ArgumentStrategy {
    /// Every fragment is a complete JSON value on its own and replaces the
    /// arguments seen so far; a fragment that does not parse leaves an
    /// empty object.
    ReplaceWhole,
    /// Fragments are concatenated and parsed once, when the call closes; a
    /// text that does not parse leaves an empty object.
    Concatenate,
}

/// One content block under construction.
#[derive(Debug)]
pub enum StreamBlock {
    /// A finished run of text.
    Text { text: String },
    /// A tool-call record: its id and name, the raw argument text received
    /// so far, the current parsed arguments, and whether the record has
    /// been closed (and is immutable from then on).
    Call { id: String, name: String, raw: String, arguments: JsonValue, closed: bool },
}

impl StreamBlock {
    pub open spec fn is_call(self) -> bool {
        self matches StreamBlock::Call { .. }
    }

    pub open spec fn text_of(self) -> Seq<char> {
        match self {
            StreamBlock::Text { text } => text@,
            _ => Seq::empty(),
        }
    }

    pub open spec fn call_id(self) -> Seq<char> {
        match self {
            StreamBlock::Call { id, .. } => id@,
            _ => Seq::empty(),
        }
    }

    pub open spec fn call_name(self) -> Seq<char> {
        match self {
            StreamBlock::Call { name, .. } => name@,
            _ => Seq::empty(),
        }
    }

    pub open spec fn call_raw(self) -> Seq<char> {
        match self {
            StreamBlock::Call { raw, .. } => raw@,
            _ => Seq::empty(),
        }
    }

    pub open spec fn call_args(self) -> JsonData {
        match self {
            StreamBlock::Call { arguments, .. } => arguments@,
            _ => JsonData::Null,
        }
    }

    pub open spec fn call_closed(self) -> bool {
        match self {
            StreamBlock::Call { closed, .. } => closed,
            _ => false,
        }
    }
}

/// The empty JSON object, the fallback for argument text that fails to
/// parse.
pub open spec fn empty_object_data() -> JsonData {
    JsonData::Obj(Seq::empty())
}

/// What a piece of argument text means: its JSON value, or the empty
/// object when it does not parse.
pub open spec fn args_of_text(raw: Seq<char>) -> JsonData {
    match parsed_json(raw) {
        Some(v) => v,
        None => empty_object_data(),
    }
}

/// The arguments a block contributes to the finalized message: under
/// `ReplaceWhole`, and for every closed record, the arguments already
/// resolved; an open record under `Concatenate` resolves its accumulated
/// raw text at flush time.
pub open spec fn resolved_args(b: StreamBlock, strategy: ArgumentStrategy) -> JsonData {
    if strategy == ArgumentStrategy::Concatenate && !b.call_closed() {
        args_of_text(b.call_raw())
    } else {
        b.call_args()
    }
}

/// The index of the first open tool-call record matching `id`, scanning
/// from `i`.
pub open spec fn find_open_call(blocks: Seq<StreamBlock>, id: Seq<char>, i: int) -> Option<int>
    decreases blocks.len() - i,
{
    if i < 0 || i >= blocks.len() {
        None
    } else if blocks[i].is_call() && !blocks[i].call_closed() && blocks[i].call_id() == id {
        Some(i)
    } else {
        find_open_call(blocks, id, i + 1)
    }
}

/// Assembles streamed model events into message content for one turn.
pub struct StreamAggregator {
    blocks: Vec<StreamBlock>,
    strategy: ArgumentStrategy,
    finish: Option<FinishReason>,
    failed: bool,
}

impl StreamAggregator {
    /// The blocks built so far.
    pub closed spec fn spec_blocks(self) -> Seq<StreamBlock> {
        self.blocks@
    }

    /// The configured argument strategy.
    pub closed spec fn spec_strategy(self) -> ArgumentStrategy {
        self.strategy
    }

    /// The finish reason, once a `Finish` event arrived.
    pub closed spec fn spec_finish(self) -> Option<FinishReason> {
        self.finish
    }

    /// Whether an error event aborted the turn.
    pub closed spec fn spec_failed(self) -> bool {
        self.failed
    }

    /// A fresh aggregator with no blocks.
    pub fn new(strategy: ArgumentStrategy) -> (r: StreamAggregator)
        ensures
            r.spec_blocks().len() == 0,
            r.spec_strategy() == strategy,
            r.spec_finish() is None,
            !r.spec_failed(),
    {
        StreamAggregator { blocks: Vec::new(), strategy, finish: None, failed: false }
    }

    /// The index of the first open record matching `id`, if any.
    #[verifier::loop_isolation(false)]
    fn find_open(&self, id: &str) -> (r: Option<usize>)
        ensures
            match r {
                Some(k) => {
                    &&& find_open_call(self.spec_blocks(), id@, 0) == Some(k as int)
                    &&& k < self.spec_blocks().len()
                    &&& self.spec_blocks()[k as int].is_call()
                    &&& !self.spec_blocks()[k as int].call_closed()
                    &&& self.spec_blocks()[k as int].call_id() == id@
                },
                None => find_open_call(self.spec_blocks(), id@, 0) is None,
            },
    {
        let mut i: usize = 0;
        while i < self.blocks.len()
            invariant
                i <= self.spec_blocks().len(),
                find_open_call(self.spec_blocks(), id@, 0) == find_open_call(
                    self.spec_blocks(),
                    id@,
                    i as int,
                ),
            decreases self.spec_blocks().len() - i,
        {
            let hit = match &self.blocks[i] {
                StreamBlock::Call { id: bid, closed, .. } => !*closed && crate::json::str_eq(
                    bid.as_str(),
                    id,
                ),
                _ => false,
            };
            if hit {
                return Some(i);
            }
            i += 1;
        }
        None
    }

    /// Applies one model event and hands back the progress event to surface
    /// to the caller, if any.
    ///
    /// Text appends a text block; a tool-call start opens a fresh record
    /// with empty arguments; an argument fragment is applied to the open
    /// record matching its id (and silently dropped when there is none); a
    /// tool-call end closes that record, making it immutable; a finish
    /// event records the reason; an error event marks the turn failed.
    pub fn apply(&mut self, event: &LLMEvent) -> (emitted: Option<AgentEvent>)
        ensures
            final(self).spec_strategy() == old(self).spec_strategy(),
            match event {
                LLMEvent::TextDelta { text } => {
                    &&& final(self).spec_blocks().len() == old(self).spec_blocks().len() + 1
                    &&& forall|j: int|
                        0 <= j < old(self).spec_blocks().len() ==> final(self).spec_blocks()[j]
                            == old(self).spec_blocks()[j]
                    &&& !final(self).spec_blocks().last().is_call()
                    &&& final(self).spec_blocks().last().text_of() == text@
                    &&& final(self).spec_finish() == old(self).spec_finish()
                    &&& final(self).spec_failed() == old(self).spec_failed()
                    &&& emitted matches Some(AgentEvent::Text { text: t }) && t@ == text@
                },
                LLMEvent::ToolCallStart { id, name } => {
                    &&& final(self).spec_blocks().len() == old(self).spec_blocks().len() + 1
                    &&& forall|j: int|
                        0 <= j < old(self).spec_blocks().len() ==> final(self).spec_blocks()[j]
                            == old(self).spec_blocks()[j]
                    &&& final(self).spec_blocks().last().is_call()
                    &&& final(self).spec_blocks().last().call_id() == id@
                    &&& final(self).spec_blocks().last().call_name() == name@
                    &&& final(self).spec_blocks().last().call_raw() == Seq::<char>::empty()
                    &&& final(self).spec_blocks().last().call_args() == empty_object_data()
                    &&& !final(self).spec_blocks().last().call_closed()
                    &&& final(self).spec_finish() == old(self).spec_finish()
                    &&& final(self).spec_failed() == old(self).spec_failed()
                    &&& emitted matches Some(AgentEvent::ToolCall { name: n, args: a }) && n@
                        == name@ && a@ == empty_object_data()
                },
                LLMEvent::ToolCallDelta { id, arguments } => {
                    &&& emitted is None
                    &&& final(self).spec_finish() == old(self).spec_finish()
                    &&& final(self).spec_failed() == old(self).spec_failed()
                    &&& match find_open_call(old(self).spec_blocks(), id@, 0) {
                        None => final(self).spec_blocks() == old(self).spec_blocks(),
                        Some(k) => {
                            &&& final(self).spec_blocks().len() == old(self).spec_blocks().len()
                            &&& forall|j: int|
                                0 <= j < old(self).spec_blocks().len() && j != k ==> final(self).spec_blocks()[j] == old(self).spec_blocks()[j]
                            &&& final(self).spec_blocks()[k].is_call()
                            &&& !final(self).spec_blocks()[k].call_closed()
                            &&& final(self).spec_blocks()[k].call_id() == old(
                                self,
                            ).spec_blocks()[k].call_id()
                            &&& final(self).spec_blocks()[k].call_name() == old(
                                self,
                            ).spec_blocks()[k].call_name()
                            &&& final(self).spec_blocks()[k].call_raw() == old(
                                self,
                            ).spec_blocks()[k].call_raw() + arguments@
                            &&& final(self).spec_blocks()[k].call_args() == (if old(
                                self,
                            ).spec_strategy() == ArgumentStrategy::ReplaceWhole {
                                args_of_text(arguments@)
                            } else {
                                old(self).spec_blocks()[k].call_args()
                            })
                        },
                    }
                },
                LLMEvent::ToolCallEnd { id } => {
                    &&& emitted is None
                    &&& final(self).spec_finish() == old(self).spec_finish()
                    &&& final(self).spec_failed() == old(self).spec_failed()
                    &&& match find_open_call(old(self).spec_blocks(), id@, 0) {
                        None => final(self).spec_blocks() == old(self).spec_blocks(),
                        Some(k) => {
                            &&& final(self).spec_blocks().len() == old(self).spec_blocks().len()
                            &&& forall|j: int|
                                0 <= j < old(self).spec_blocks().len() && j != k ==> final(self).spec_blocks()[j] == old(self).spec_blocks()[j]
                            &&& final(self).spec_blocks()[k].is_call()
                            &&& final(self).spec_blocks()[k].call_closed()
                            &&& final(self).spec_blocks()[k].call_id() == old(
                                self,
                            ).spec_blocks()[k].call_id()
                            &&& final(self).spec_blocks()[k].call_name() == old(
                                self,
                            ).spec_blocks()[k].call_name()
                            &&& final(self).spec_blocks()[k].call_raw() == old(
                                self,
                            ).spec_blocks()[k].call_raw()
                            &&& final(self).spec_blocks()[k].call_args() == (if old(
                                self,
                            ).spec_strategy() == ArgumentStrategy::Concatenate {
                                args_of_text(old(self).spec_blocks()[k].call_raw())
                            } else {
                                old(self).spec_blocks()[k].call_args()
                            })
                        },
                    }
                },
                LLMEvent::Finish { reason, .. } => {
                    &&& final(self).spec_blocks() == old(self).spec_blocks()
                    &&& final(self).spec_finish() == Some(*reason)
                    &&& final(self).spec_failed() == old(self).spec_failed()
                    &&& emitted matches Some(AgentEvent::MessageEnd { finish_reason }) &&
                        finish_reason == reason
                },
                LLMEvent::Error { error } => {
                    &&& final(self).spec_blocks() == old(self).spec_blocks()
                    &&& final(self).spec_finish() == old(self).spec_finish()
                    &&& final(self).spec_failed()
                    &&& emitted matches Some(AgentEvent::Error { error: e }) && e@ == error@
                },
            },
    {
        match event {
            LLMEvent::TextDelta { text } => {
                self.blocks.push(StreamBlock::Text { text: text.clone() });
                Some(AgentEvent::Text { text: text.clone() })
            }
            LLMEvent::ToolCallStart { id, name } => {
                self.blocks.push(
                    StreamBlock::Call {
                        id: id.clone(),
                        name: name.clone(),
                        raw: String::new(),
                        arguments: JsonValue::empty_object(),
                        closed: false,
                    },
                );
                Some(AgentEvent::ToolCall { name: name.clone(), args: JsonValue::empty_object() })
            }
            LLMEvent::ToolCallDelta { id, arguments } => {
                match self.find_open(id.as_str()) {
                    None => None,
                    Some(k) => {
                        let (bid, bname, braw, bargs) = match &self.blocks[k] {
                            StreamBlock::Call { id: bid, name: bname, raw: braw, arguments: bargs, .. } => {
                                (bid.clone(), bname.clone(), braw.clone(), bargs.duplicate())
                            }
                            _ => unreached(),
                        };
                        let mut raw = braw;
                        raw.append(arguments.as_str());
                        let new_args: JsonValue = if self.is_replace_whole() {
                            match parse_json_text(arguments.as_str()) {
                                Some(v) => v,
                                None => JsonValue::empty_object(),
                            }
                        } else {
                            bargs
                        };
                        self.blocks[k] = StreamBlock::Call {
                            id: bid,
                            name: bname,
                            raw,
                            arguments: new_args,
                            closed: false,
                        };
                        None
                    }
                }
            }
            LLMEvent::ToolCallEnd { id } => {
                match self.find_open(id.as_str()) {
                    None => None,
                    Some(k) => {
                        let (bid, bname, braw, bargs) = match &self.blocks[k] {
                            StreamBlock::Call { id: bid, name: bname, raw: braw, arguments: bargs, .. } => {
                                (bid.clone(), bname.clone(), braw.clone(), bargs.duplicate())
                            }
                            _ => unreached(),
                        };
                        let new_args: JsonValue = if self.is_concatenate() {
                            match parse_json_text(braw.as_str()) {
                                Some(v) => v,
                                None => JsonValue::empty_object(),
                            }
                        } else {
                            bargs
                        };
                        self.blocks[k] = StreamBlock::Call {
                            id: bid,
                            name: bname,
                            raw: braw,
                            arguments: new_args,
                            closed: true,
                        };
                        None
                    }
                }
            }
            LLMEvent::Finish { reason, .. } => {
                self.finish = Some(*reason);
                Some(AgentEvent::MessageEnd { finish_reason: *reason })
            }
            LLMEvent::Error { error } => {
                self.failed = true;
                Some(AgentEvent::Error { error: error.clone() })
            }
        }
    }

    fn is_replace_whole(&self) -> (r: bool)
        ensures
            r == (self.spec_strategy() == ArgumentStrategy::ReplaceWhole),
    {
        match self.strategy {
            ArgumentStrategy::ReplaceWhole => true,
            ArgumentStrategy::Concatenate => false,
        }
    }

    fn is_concatenate(&self) -> (r: bool)
        ensures
            r == (self.spec_strategy() == ArgumentStrategy::Concatenate),
    {
        match self.strategy {
            ArgumentStrategy::ReplaceWhole => false,
            ArgumentStrategy::Concatenate => true,
        }
    }

    /// Flushes the turn: every block becomes one content block of the
    /// assistant message, in order; an open record under `Concatenate`
    /// resolves its accumulated raw text now.
    #[verifier::loop_isolation(false)]
    pub fn to_content(&self) -> (r: Vec<MessageContent>)
        ensures
            r@.len() == self.spec_blocks().len(),
            forall|i: int|
                0 <= i < r@.len() ==> {
                    let b = self.spec_blocks()[i];
                    if b.is_call() {
                        (#[trigger] r@[i]).is_call() && r@[i].call_id() == b.call_id()
                            && r@[i].call_name() == b.call_name() && r@[i].call_args()
                            == resolved_args(b, self.spec_strategy())
                    } else {
                        r@[i].is_text() && r@[i].text_of() == b.text_of()
                    }
                },
    {
        let mut out: Vec<MessageContent> = Vec::new();
        let mut i: usize = 0;
        while i < self.blocks.len()
            invariant
                i <= self.spec_blocks().len(),
                out@.len() == i,
                forall|j: int|
                    0 <= j < i ==> {
                        let b = self.spec_blocks()[j];
                        if b.is_call() {
                            (#[trigger] out@[j]).is_call() && out@[j].call_id() == b.call_id()
                                && out@[j].call_name() == b.call_name() && out@[j].call_args()
                                == resolved_args(b, self.spec_strategy())
                        } else {
                            out@[j].is_text() && out@[j].text_of() == b.text_of()
                        }
                    },
            decreases self.spec_blocks().len() - i,
        {
            let block = match &self.blocks[i] {
                StreamBlock::Text { text } => MessageContent::Text { text: text.clone() },
                StreamBlock::Call { id, name, raw, arguments, closed } => {
                    let resolved: JsonValue = if self.is_concatenate() && !*closed {
                        match parse_json_text(raw.as_str()) {
                            Some(v) => v,
                            None => JsonValue::empty_object(),
                        }
                    } else {
                        arguments.duplicate()
                    };
                    MessageContent::ToolCall {
                        id: id.clone(),
                        name: name.clone(),
                        arguments: resolved,
                    }
                }
            };
            out.push(block);
            i += 1;
        }
        out
    }

    /// The finish reason, once a `Finish` event arrived.
    pub fn finish_reason(&self) -> (r: Option<FinishReason>)
        ensures
            r == self.spec_finish(),
    {
        self.finish
    }

    /// Whether an error event aborted the turn; an aborted turn's content
    /// must be discarded, not persisted.
    pub fn has_failed(&self) -> (r: bool)
        ensures
            r == self.spec_failed(),
    {
        self.failed
    }
}

} // verus!
