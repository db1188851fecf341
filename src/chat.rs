//! The requests the chat commands send: a turn of the conversation, and a
//! summary of a stored conversation.
use vstd::prelude::*;

use crate::config::LlmSettings;
use crate::dispatch::{batch_call_for, BackendCall, CompletionApis};
use crate::error::CompletionError;
use crate::message::{CompletionRequest, MessageHistoryItem, MessageRole, Real64};
use crate::shaping::stripped_history;
use crate::types::{Chat, ChatHistoryItem};

verus! {

/// Whether the reasoning sections of earlier replies are dropped: they are
/// unless the settings turn it off.
pub open spec fn strips_thinking(llm: LlmSettings) -> bool {
    match llm.strip_thinking_tags {
        Some(b) => b,
        None => true,
    }
}

/// The streaming request for a chat turn: the history, shaped as the settings
/// ask, with the settings' sampling values and no model named.
pub fn chat_completion_request(llm: &LlmSettings, history: Vec<MessageHistoryItem>) -> (r: CompletionRequest)
    ensures
        r.stream,
        r.model@.len() == 0,
        r.max_tokens == llm.max_tokens,
        r.temperature == llm.temperature,
        r.frequency_penalty == llm.frequency_penalty,
        r.presence_penalty == llm.presence_penalty,
        r.repeat_penalty == llm.repeat_penalty,
        r.top_p == llm.top_p,
        r.seed == llm.seed,
        strips_thinking(*llm) ==> stripped_history(history@, r.messages@),
        !strips_thinking(*llm) ==> r.messages == history,
{
    let request = CompletionRequest {
        messages: history,
        model: String::new(),
        stream: true,
        max_tokens: llm.max_tokens,
        temperature: llm.temperature,
        frequency_penalty: llm.frequency_penalty,
        presence_penalty: llm.presence_penalty,
        repeat_penalty: llm.repeat_penalty,
        top_p: llm.top_p,
        seed: llm.seed,
    };
    if llm.strip_thinking_tags.unwrap_or(true) {
        request.strip_thinking_tags()
    } else {
        request
    }
}

/// Bit pattern of the summary temperature, 0.2.
pub const SUMMARY_TEMPERATURE_BITS: u64 = 0x3FC999999999999A;

/// The answer budget of a summary, in tokens.
pub const SUMMARY_MAX_TOKENS: usize = 100;

/// Every turn's chosen answer is one of its answers.
pub open spec fn chosen_answers_exist(history: Seq<ChatHistoryItem>) -> bool {
    forall|k: int| 0 <= k < history.len() ==> (#[trigger] history[k]).chosen_answer < history[k].content@.len()
}

/// Whether every turn's chosen answer is one of its answers.
pub fn chosen_answers_valid(history: &[ChatHistoryItem]) -> (b: bool)
    ensures
        b == chosen_answers_exist(history@),
{
    let n = history.len();
    let mut i: usize = 0;
    while i < n
        invariant
            i <= n,
            n == history@.len(),
            forall|k: int| 0 <= k < i ==> (#[trigger] history@[k]).chosen_answer < history@[k].content@.len(),
        decreases n - i,
    {
        if history[i].chosen_answer >= history[i].content.len() {
            return false;
        }
        i = i + 1;
    }
    true
}

/// `r` asks for a summary of `history`: each turn's chosen answer under its
/// role, then the prompt as the user's, at a low temperature and a small
/// answer budget, without streaming.
pub open spec fn summary_request_for(history: Seq<ChatHistoryItem>, prompt: Seq<char>, r: CompletionRequest) -> bool {
    &&& r.messages@.len() == history.len() + 1
    &&& forall|k: int|
        0 <= k < history.len() ==> {
            &&& (#[trigger] r.messages@[k]).role == history[k].role
            &&& r.messages@[k].content@ == history[k].content@[history[k].chosen_answer as int].content@
        }
    &&& r.messages@[history.len() as int].role == MessageRole::User
    &&& r.messages@[history.len() as int].content@ == prompt
    &&& r.model@ == "unused"@
    &&& !r.stream
    &&& r.max_tokens == Some(SUMMARY_MAX_TOKENS)
    &&& r.temperature == Some(Real64 { bits: SUMMARY_TEMPERATURE_BITS })
    &&& r.frequency_penalty is None
    &&& r.presence_penalty is None
    &&& r.repeat_penalty is None
    &&& r.top_p is None
    &&& r.seed is None
}

/// The request that asks a backend to summarize a conversation.
pub fn summary_request(history: &[ChatHistoryItem], prompt: &str) -> (r: CompletionRequest)
    requires
        chosen_answers_exist(history@),
    ensures
        summary_request_for(history@, prompt@, r),
{
    let mut messages: Vec<MessageHistoryItem> = Vec::new();
    let n = history.len();
    let mut i: usize = 0;
    while i < n
        invariant
            i <= n,
            n == history@.len(),
            chosen_answers_exist(history@),
            messages@.len() == i,
            forall|k: int|
                0 <= k < i ==> {
                    &&& (#[trigger] messages@[k]).role == history@[k].role
                    &&& messages@[k].content@ == history@[k].content@[history@[k].chosen_answer as int].content@
                },
        decreases n - i,
    {
        let entry = &history[i];
        assert(entry.chosen_answer < entry.content@.len());
        let content = entry.content[entry.chosen_answer].content.clone();
        messages.push(MessageHistoryItem { role: entry.role, content });
        i = i + 1;
    }
    messages.push(MessageHistoryItem { role: MessageRole::User, content: prompt.to_owned() });
    proof {
        reveal_strlit("unused");
    }
    CompletionRequest {
        messages,
        model: "unused".to_owned(),
        stream: false,
        max_tokens: Some(SUMMARY_MAX_TOKENS),
        temperature: Some(Real64 { bits: SUMMARY_TEMPERATURE_BITS }),
        frequency_penalty: None,
        presence_penalty: None,
        repeat_penalty: None,
        top_p: None,
        seed: None,
    }
}

/// Asks the backend to summarize a conversation; the reply's first message
/// is the summary.
pub fn summarize(chat: &Chat, client: &CompletionApis, prompt: &str) -> (r: Result<BackendCall, CompletionError>)
    requires
        chosen_answers_exist(chat.data@),
    ensures
        exists|request: CompletionRequest|
            summary_request_for(chat.data@, prompt@, request) && batch_call_for(*client, request, r),
{
    let request = summary_request(chat.data.as_slice(), prompt);
    let ghost req = request;
    let r = client.get_completions(request);
    assert(summary_request_for(chat.data@, prompt@, req) && batch_call_for(*client, req, r));
    r
}

} // verus!
