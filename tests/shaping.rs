use erpy_ai::chat::{chat_completion_request, chosen_answers_valid, summary_request, SUMMARY_MAX_TOKENS};
use erpy_ai::config::LlmSettings;
use erpy_ai::message::{CompletionChoice, CompletionMessage, CompletionRequest, CompletionResponse};
use erpy_ai::types::{ChatContent, ChatHistoryItem};
use erpy_ai::{estimate_tokens, MessageHistoryItem, MessageRole, Real64};

fn item(role: MessageRole, content: &str) -> MessageHistoryItem {
    MessageHistoryItem { role, content: content.to_string() }
}

fn request_with(messages: Vec<MessageHistoryItem>) -> CompletionRequest {
    CompletionRequest {
        messages,
        model: "m".to_string(),
        stream: true,
        max_tokens: Some(7),
        temperature: Some(Real64 { bits: 0.7f64.to_bits() }),
        seed: Some(3),
        ..Default::default()
    }
}

#[test]
fn estimate_tokens_of_4000_bytes_is_1000() {
    let history = vec![item(MessageRole::User, &"a".repeat(1500)), item(MessageRole::Assistant, &"b".repeat(2500))];
    assert_eq!(estimate_tokens(&history), 1000);
}

#[test]
fn estimate_tokens_rounds_down() {
    let history = vec![item(MessageRole::User, &"a".repeat(4003))];
    assert_eq!(estimate_tokens(&history), 1000);
    let short = vec![item(MessageRole::User, "abc")];
    assert_eq!(estimate_tokens(&short), 0);
}

#[test]
fn estimate_tokens_counts_utf8_bytes() {
    // each 'é' is two bytes
    let history = vec![item(MessageRole::User, &"é".repeat(4))];
    assert_eq!(estimate_tokens(&history), 2);
    assert_eq!(estimate_tokens(&[]), 0);
}

#[test]
fn estimated_tokens_of_request() {
    let request = request_with(vec![item(MessageRole::User, &"x".repeat(41))]);
    assert_eq!(request.estimated_tokens(), 10);
}

#[test]
fn strip_keeps_text_after_marker() {
    let request = request_with(vec![item(MessageRole::Assistant, "abc</think>def")]);
    let stripped = request.strip_thinking_tags();
    assert_eq!(stripped.messages.len(), 1);
    assert_eq!(stripped.messages[0].content, "def");
    assert_eq!(stripped.messages[0].role, MessageRole::Assistant);
}

#[test]
fn strip_leaves_unmarked_message_unchanged() {
    let request = request_with(vec![
        item(MessageRole::System, "no marker <think> here"),
        item(MessageRole::User, ""),
    ]);
    let stripped = request.strip_thinking_tags();
    assert_eq!(stripped.messages[0].content, "no marker <think> here");
    assert_eq!(stripped.messages[1].content, "");
}

#[test]
fn strip_uses_first_marker_and_keeps_settings() {
    let request = request_with(vec![
        item(MessageRole::Assistant, "<think>a</think>b</think>c"),
        item(MessageRole::Assistant, "héllo</think>"),
    ]);
    let stripped = request.strip_thinking_tags();
    assert_eq!(stripped.messages[0].content, "b</think>c");
    assert_eq!(stripped.messages[1].content, "");
    assert_eq!(stripped.model, "m");
    assert!(stripped.stream);
    assert_eq!(stripped.max_tokens, Some(7));
    assert_eq!(stripped.temperature, Some(Real64 { bits: 0.7f64.to_bits() }));
    assert_eq!(stripped.seed, Some(3));
}

#[test]
fn role_tokens_are_lowercase() {
    assert_eq!(MessageRole::User.as_str(), "user");
    assert_eq!(MessageRole::Assistant.as_str(), "assistant");
    assert_eq!(MessageRole::System.as_str(), "system");
}

#[test]
fn into_message_takes_first_choice() {
    let response = CompletionResponse {
        id: "id".to_string(),
        created: 1,
        model: "m".to_string(),
        choices: vec![
            CompletionChoice {
                index: 0,
                finish_reason: None,
                message: CompletionMessage { role: MessageRole::Assistant, content: "first".to_string() },
            },
            CompletionChoice {
                index: 1,
                finish_reason: None,
                message: CompletionMessage { role: MessageRole::Assistant, content: "second".to_string() },
            },
        ],
    };
    assert_eq!(response.into_message(), "first");
}

#[test]
fn chat_request_strips_by_default() {
    let llm = LlmSettings { max_tokens: Some(50), seed: Some(9), ..Default::default() };
    let request = chat_completion_request(&llm, vec![item(MessageRole::Assistant, "x</think>y")]);
    assert!(request.stream);
    assert_eq!(request.model, "");
    assert_eq!(request.max_tokens, Some(50));
    assert_eq!(request.seed, Some(9));
    assert_eq!(request.messages[0].content, "y");
}

#[test]
fn chat_request_keeps_reasoning_when_asked() {
    let llm = LlmSettings { strip_thinking_tags: Some(false), ..Default::default() };
    let request = chat_completion_request(&llm, vec![item(MessageRole::Assistant, "x</think>y")]);
    assert_eq!(request.messages[0].content, "x</think>y");
}

fn turn(role: MessageRole, answers: &[&str], chosen: usize) -> ChatHistoryItem {
    ChatHistoryItem {
        role,
        content: answers
            .iter()
            .map(|a| ChatContent { content: a.to_string(), timestamp: 0, model_id: "m".to_string() })
            .collect(),
        chosen_answer: chosen,
    }
}

#[test]
fn summary_request_uses_chosen_answers() {
    let history = vec![turn(MessageRole::User, &["hi"], 0), turn(MessageRole::Assistant, &["a", "b"], 1)];
    assert!(chosen_answers_valid(&history));
    let request = summary_request(&history, "summarize");
    assert_eq!(request.messages.len(), 3);
    assert_eq!(request.messages[0].content, "hi");
    assert_eq!(request.messages[1].content, "b");
    assert_eq!(request.messages[1].role, MessageRole::Assistant);
    assert_eq!(request.messages[2].content, "summarize");
    assert_eq!(request.messages[2].role, MessageRole::User);
    assert!(!request.stream);
    assert_eq!(request.model, "unused");
    assert_eq!(request.max_tokens, Some(SUMMARY_MAX_TOKENS));
    assert_eq!(request.max_tokens, Some(100));
    assert_eq!(request.temperature, Some(Real64 { bits: 0.2f64.to_bits() }));
}

#[test]
fn chosen_answer_out_of_range_is_detected() {
    let history = vec![turn(MessageRole::Assistant, &["a", "b"], 2)];
    assert!(!chosen_answers_valid(&history));
}
