use erpy_ai::mistral::{classify_engine_response, normalize_engine, EngineChoice, EngineChunk, EngineResponse};
use erpy_ai::normalize::{assistant_reply, drain_steps, join_first_contents, DeltaStream, StreamStep};
use erpy_ai::open_ai::{classify_sse_event, normalize_sse, SseEvent};
use erpy_ai::{DeltaContent, MessageRole, StreamingCompletionChoice, StreamingCompletionResponse};

fn delta(text: &str, finish: Option<&str>) -> StreamingCompletionResponse {
    StreamingCompletionResponse {
        choices: vec![StreamingCompletionChoice {
            delta: DeltaContent { content: text.to_string() },
            finish_reason: finish.map(|f| f.to_string()),
        }],
    }
}

fn chunk(text: Option<&str>, finish: Option<&str>) -> EngineResponse {
    EngineResponse::Chunk(EngineChunk {
        choices: vec![EngineChoice { content: text.map(|t| t.to_string()), finish_reason: finish.map(|f| f.to_string()) }],
    })
}

#[test]
fn malformed_sse_event_is_skipped() {
    let events = vec![
        SseEvent::Message(Some(delta("a", None))),
        SseEvent::Message(None),
        SseEvent::Message(Some(delta("b", None))),
    ];
    let items = normalize_sse(events);
    assert_eq!(items.len(), 2);
    assert_eq!(items[0].choices[0].delta.content, "a");
    assert_eq!(items[1].choices[0].delta.content, "b");
}

#[test]
fn sse_open_is_ignored_and_failure_ends() {
    let events = vec![
        SseEvent::Open,
        SseEvent::Message(Some(delta("a", None))),
        SseEvent::Failed,
        SseEvent::Message(Some(delta("late", None))),
    ];
    let items = normalize_sse(events);
    assert_eq!(items.len(), 1);
    assert_eq!(items[0].choices[0].delta.content, "a");
    assert!(normalize_sse(vec![]).is_empty());
}

#[test]
fn sse_events_classify() {
    assert!(matches!(classify_sse_event(SseEvent::Open), StreamStep::Skip));
    assert!(matches!(classify_sse_event(SseEvent::Message(None)), StreamStep::Skip));
    assert!(matches!(classify_sse_event(SseEvent::Failed), StreamStep::End));
    assert!(matches!(classify_sse_event(SseEvent::Message(Some(delta("x", None)))), StreamStep::Item(_)));
}

#[test]
fn engine_sequence_yields_one_item() {
    let responses = vec![
        chunk(Some("Hi"), None),
        chunk(Some(""), Some("stop")),
        EngineResponse::InternalError("boom".to_string()),
    ];
    let items = normalize_engine(responses);
    assert_eq!(items.len(), 1);
    assert_eq!(items[0].choices[0].delta.content, "Hi");
}

#[test]
fn engine_errors_end_and_other_shapes_are_ignored() {
    let responses = vec![EngineResponse::Other, chunk(None, None), EngineResponse::ValidationError("bad".to_string()), chunk(Some("x"), None)];
    let items = normalize_engine(responses);
    assert_eq!(items.len(), 1);
    assert_eq!(items[0].choices[0].delta.content, "");
    assert_eq!(items[0].choices[0].finish_reason, None);
    let model_error = vec![EngineResponse::ModelError("m".to_string()), chunk(Some("x"), None)];
    assert!(normalize_engine(model_error).is_empty());
    let done = vec![chunk(Some("a"), None), EngineResponse::Done, chunk(Some("b"), None)];
    assert_eq!(normalize_engine(done).len(), 1);
}

#[test]
fn engine_chunk_without_choices_ends_stream() {
    let empty = EngineResponse::Chunk(EngineChunk { choices: vec![] });
    assert!(empty.ends_stream());
    assert!(matches!(classify_engine_response(EngineResponse::Chunk(EngineChunk { choices: vec![] })), StreamStep::End));
    assert!(!chunk(Some("a"), None).ends_stream());
    assert!(!EngineResponse::Other.ends_stream());
    assert!(EngineResponse::Done.ends_stream());
}

#[test]
fn engine_chunk_converts_choices() {
    let c = EngineChunk {
        choices: vec![
            EngineChoice { content: Some("a".to_string()), finish_reason: None },
            EngineChoice { content: None, finish_reason: Some("length".to_string()) },
        ],
    };
    let r = StreamingCompletionResponse::from_engine_chunk(c);
    assert_eq!(r.choices.len(), 2);
    assert_eq!(r.choices[0].delta.content, "a");
    assert_eq!(r.choices[1].delta.content, "");
    assert_eq!(r.choices[1].finish_reason.as_deref(), Some("length"));
}

#[test]
fn cancelled_stream_yields_nothing() {
    let mut stream = DeltaStream::new();
    assert!(!stream.ended());
    assert!(stream.pull(StreamStep::Item(delta("a", None))).is_some());
    assert!(stream.pull(StreamStep::Skip).is_none());
    assert!(!stream.ended());
    stream.cancel();
    assert!(stream.ended());
    assert!(stream.pull(StreamStep::Item(delta("b", None))).is_none());
}

#[test]
fn ended_stream_stays_ended() {
    let mut stream = DeltaStream::new();
    assert!(stream.pull(StreamStep::End).is_none());
    assert!(stream.ended());
    assert!(stream.pull(StreamStep::Item(delta("b", None))).is_none());
    let items = drain_steps(vec![StreamStep::Skip, StreamStep::Item(delta("a", None)), StreamStep::End, StreamStep::Item(delta("b", None))]);
    assert_eq!(items.len(), 1);
}

#[test]
fn joins_first_choices_and_builds_reply() {
    let chunks = vec![delta("a", None), delta("bc", Some("stop"))];
    assert_eq!(join_first_contents(&chunks), "abc");
    let r = assistant_reply("i".to_string(), 7, "m".to_string(), "text".to_string(), Some("length".to_string()));
    assert_eq!((r.id.as_str(), r.created, r.model.as_str()), ("i", 7, "m"));
    assert_eq!(r.choices.len(), 1);
    assert_eq!(r.choices[0].index, 0);
    assert_eq!(r.choices[0].message.content, "text");
    assert_eq!(r.choices[0].message.role, MessageRole::Assistant);
    assert_eq!(r.choices[0].finish_reason.as_deref(), Some("length"));
}
