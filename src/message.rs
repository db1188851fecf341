//! Value types of a conversation and of the completion request and response
//! envelopes.
use vstd::prelude::*;

verus! {

/// Who wrote a message.
#[derive(Debug, Clone, Copy, PartialEq, Eq, Hash, Structural)]
pub enum MessageRole {
    User,
    Assistant,
    System,
}

/// The lowercase token a role is written as on the wire.
pub open spec fn role_token(role: MessageRole) -> Seq<char> {
    match role {
        MessageRole::User => "user"@,
        MessageRole::Assistant => "assistant"@,
        MessageRole::System => "system"@,
    }
}

impl MessageRole {
    /// The lowercase token of this role: `user`, `assistant` or `system`.
    pub fn as_str(&self) -> (r: &'static str)
        ensures
            r@ == role_token(*self),
    {
        match self {
            MessageRole::User => "user",
            MessageRole::Assistant => "assistant",
            MessageRole::System => "system",
        }
    }
}

/// One turn of a conversation history.
#[derive(Debug, Clone)]
pub struct MessageHistoryItem {
    pub role: MessageRole,
    pub content: String,
}

/// A binary64 sampling value carried by its IEEE-754 bit pattern. The library
/// only passes such values along and never computes with them.
#[derive(Debug, Clone, Copy, PartialEq, Eq, Structural)]
pub struct Real64 {
    pub bits: u64,
}

/// A binary32 sampling value carried by its IEEE-754 bit pattern.
#[derive(Debug, Clone, Copy, PartialEq, Eq, Structural)]
pub struct Real32 {
    pub bits: u32,
}

/// A chat-completion request. Every sampling field is optional: an absent one
/// is left out of the wire encoding so that the backend's default applies.
/// `stream` must match the operation the request is handed to.
#[derive(Debug, Clone, Default)]
pub struct CompletionRequest {
    pub messages: Vec<MessageHistoryItem>,
    pub model: String,
    pub stream: bool,
    pub max_tokens: Option<usize>,
    pub temperature: Option<Real64>,
    pub frequency_penalty: Option<Real32>,
    pub presence_penalty: Option<Real32>,
    pub repeat_penalty: Option<Real32>,
    pub top_p: Option<Real64>,
    pub seed: Option<i64>,
}

/// One incremental item of a streamed completion.
#[derive(Debug, Clone)]
pub struct StreamingCompletionResponse {
    pub choices: Vec<StreamingCompletionChoice>,
}

#[derive(Debug, Clone)]
pub struct StreamingCompletionChoice {
    pub delta: DeltaContent,
    pub finish_reason: Option<String>,
}

#[derive(Debug, Clone)]
pub struct DeltaContent {
    pub content: String,
}

/// The reply of a non-streaming completion.
#[derive(Debug, Clone)]
pub struct CompletionResponse {
    pub id: String,
    pub created: i64,
    pub model: String,
    pub choices: Vec<CompletionChoice>,
}

impl CompletionResponse {
    /// The text of the first choice. A reply without choices is not a reply,
    /// so callers hand in one that has at least one.
    pub fn into_message(self) -> (r: String)
        requires
            self.choices@.len() > 0,
        ensures
            r == self.choices@[0].message.content,
    {
        let mut choices = self.choices;
        let choice = choices.swap_remove(0);
        choice.message.content
    }
}

#[derive(Debug, Clone)]
pub struct CompletionChoice {
    pub index: i32,
    pub finish_reason: Option<String>,
    pub message: CompletionMessage,
}

#[derive(Debug, Clone)]
pub struct CompletionMessage {
    pub role: MessageRole,
    pub content: String,
}

} // verus!
