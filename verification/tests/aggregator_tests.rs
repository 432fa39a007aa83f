use simple_agent::AgentEvent;
use simple_agent::ArgumentStrategy;
use simple_agent::FinishReason;
use simple_agent::JsonValue;
use simple_agent::LLMEvent;
use simple_agent::MessageContent;
use simple_agent::StreamAggregator;
use simple_agent::Usage;

fn start(id: &str, name: &str) -> LLMEvent {
    LLMEvent::ToolCallStart {
        id: id.to_string(),
        name: name.to_string(),
    }
}

fn delta(id: &str, fragment: &str) -> LLMEvent {
    LLMEvent::ToolCallDelta {
        id: id.to_string(),
        arguments: fragment.to_string(),
    }
}

fn end(id: &str) -> LLMEvent {
    LLMEvent::ToolCallEnd {
        id: id.to_string(),
    }
}

fn finish() -> LLMEvent {
    LLMEvent::Finish {
        reason: FinishReason::ToolCalls,
        usage: Usage {
            input_tokens: 0,
            output_tokens: 0,
        },
    }
}

fn call_of(content: &[MessageContent], i: usize) -> (&str, &str, &JsonValue) {
    match &content[i] {
        MessageContent::ToolCall {
            id,
            name,
            arguments,
        } => (id, name, arguments),
        _ => panic!("expected a tool call block"),
    }
}

#[test]
fn text_deltas_become_text_blocks() {
    let mut agg = StreamAggregator::new(ArgumentStrategy::ReplaceWhole);
    let emitted = agg.apply(&LLMEvent::TextDelta {
        text: "hel".to_string(),
    });
    match emitted {
        Some(AgentEvent::Text { text }) => assert_eq!(text, "hel"),
        _ => panic!("expected a text event"),
    }
    agg.apply(&LLMEvent::TextDelta {
        text: "lo".to_string(),
    });
    let content = agg.to_content();
    assert_eq!(content.len(), 2);
    assert!(matches!(&content[0], MessageContent::Text { text } if text == "hel"));
    assert!(matches!(&content[1], MessageContent::Text { text } if text == "lo"));
}

#[test]
fn single_chunk_arguments_replace_whole() {
    let mut agg = StreamAggregator::new(ArgumentStrategy::ReplaceWhole);
    agg.apply(&start("c1", "read_file"));
    agg.apply(&delta("c1", "{\"path\":\"/tmp\"}"));
    agg.apply(&end("c1"));
    let ended = agg.apply(&finish());
    assert!(matches!(
        ended,
        Some(AgentEvent::MessageEnd {
            finish_reason: FinishReason::ToolCalls
        })
    ));
    let content = agg.to_content();
    let (id, name, args) = call_of(&content, 0);
    assert_eq!(id, "c1");
    assert_eq!(name, "read_file");
    assert_eq!(
        args,
        &JsonValue::Obj(vec![(
            "path".to_string(),
            JsonValue::Str("/tmp".to_string())
        )])
    );
}

#[test]
fn multi_chunk_arguments_concatenate() {
    let mut agg = StreamAggregator::new(ArgumentStrategy::Concatenate);
    agg.apply(&start("c1", "read_file"));
    agg.apply(&delta("c1", "{\"pa"));
    agg.apply(&delta("c1", "th\":\"/tmp\"}"));
    agg.apply(&end("c1"));
    let content = agg.to_content();
    let (_, _, args) = call_of(&content, 0);
    assert_eq!(
        args,
        &JsonValue::Obj(vec![(
            "path".to_string(),
            JsonValue::Str("/tmp".to_string())
        )])
    );
}

#[test]
fn multi_chunk_under_replace_whole_degrades_to_empty_object() {
    let mut agg = StreamAggregator::new(ArgumentStrategy::ReplaceWhole);
    agg.apply(&start("c1", "read_file"));
    agg.apply(&delta("c1", "{\"pa"));
    agg.apply(&delta("c1", "th\":\"/tmp\"}"));
    agg.apply(&end("c1"));
    let content = agg.to_content();
    let (_, _, args) = call_of(&content, 0);
    assert_eq!(args, &JsonValue::Obj(Vec::new()));
}

#[test]
fn deltas_go_to_the_record_matching_their_id() {
    let mut agg = StreamAggregator::new(ArgumentStrategy::ReplaceWhole);
    agg.apply(&start("c1", "first"));
    agg.apply(&start("c2", "second"));
    agg.apply(&delta("c1", "{\"a\":1}"));
    agg.apply(&delta("c2", "{\"b\":2}"));
    agg.apply(&end("c1"));
    agg.apply(&end("c2"));
    let content = agg.to_content();
    let (_, _, a1) = call_of(&content, 0);
    let (_, _, a2) = call_of(&content, 1);
    assert_eq!(
        a1,
        &JsonValue::Obj(vec![("a".to_string(), JsonValue::Int(1))])
    );
    assert_eq!(
        a2,
        &JsonValue::Obj(vec![("b".to_string(), JsonValue::Int(2))])
    );
}

#[test]
fn closed_records_are_immutable() {
    let mut agg = StreamAggregator::new(ArgumentStrategy::ReplaceWhole);
    agg.apply(&start("c1", "tool"));
    agg.apply(&delta("c1", "{\"a\":1}"));
    agg.apply(&end("c1"));
    // a late fragment for a closed record is dropped
    agg.apply(&delta("c1", "{\"a\":999}"));
    let content = agg.to_content();
    let (_, _, args) = call_of(&content, 0);
    assert_eq!(
        args,
        &JsonValue::Obj(vec![("a".to_string(), JsonValue::Int(1))])
    );
}

#[test]
fn unknown_id_fragments_are_dropped() {
    let mut agg = StreamAggregator::new(ArgumentStrategy::ReplaceWhole);
    agg.apply(&start("c1", "tool"));
    assert!(agg.apply(&delta("other", "{\"x\":1}")).is_none());
    agg.apply(&end("c1"));
    let content = agg.to_content();
    let (_, _, args) = call_of(&content, 0);
    assert_eq!(args, &JsonValue::Obj(Vec::new()));
}

#[test]
fn error_event_marks_the_turn_failed() {
    let mut agg = StreamAggregator::new(ArgumentStrategy::ReplaceWhole);
    agg.apply(&LLMEvent::TextDelta {
        text: "partial".to_string(),
    });
    assert!(!agg.has_failed());
    let emitted = agg.apply(&LLMEvent::Error {
        error: "stream dropped".to_string(),
    });
    match emitted {
        Some(AgentEvent::Error { error }) => assert_eq!(error, "stream dropped"),
        _ => panic!("expected an error event"),
    }
    assert!(agg.has_failed());
    assert!(agg.finish_reason().is_none());
}

#[test]
fn finish_reason_is_recorded() {
    let mut agg = StreamAggregator::new(ArgumentStrategy::Concatenate);
    assert!(agg.finish_reason().is_none());
    agg.apply(&finish());
    assert_eq!(agg.finish_reason(), Some(FinishReason::ToolCalls));
}
