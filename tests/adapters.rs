use erpy_ai::backend::{connection_test_result, get_backends, test_connection, BackendType, ConnectionTestResult, LoadModel};
use erpy_ai::dispatch::{BackendCall, CompletionApis, ModelSlot, ModelsPlan};
use erpy_ai::error::CompletionError;
use erpy_ai::llama::LlamaCppCompletions;
use erpy_ai::mistral::{
    convert_messages, observed_finish, timestamp, timestamp_from_seconds, EngineChoice, EngineChunk, EngineResponse,
    MistralRsCompletions, PagedAttention, RESPONSE_CHANNEL_CAPACITY,
};
use erpy_ai::open_ai::{check_reply, HttpMethod, Model, ModelsResponse, OpenAiCompletions};
use erpy_ai::{CompletionRequest, MessageHistoryItem, MessageRole, Real32, Real64};

fn request(stream: bool) -> CompletionRequest {
    CompletionRequest {
        messages: vec![
            MessageHistoryItem { role: MessageRole::System, content: "You're a helpful assistant".to_string() },
            MessageHistoryItem { role: MessageRole::User, content: "What is a cargo plane?".to_string() },
        ],
        model: "ignore".to_string(),
        stream,
        max_tokens: Some(400),
        temperature: Some(Real64 { bits: 0.7f64.to_bits() }),
        frequency_penalty: Some(Real32 { bits: 0.5f32.to_bits() }),
        presence_penalty: None,
        repeat_penalty: Some(Real32 { bits: 1.1f32.to_bits() }),
        top_p: Some(Real64 { bits: 0.9f64.to_bits() }),
        seed: Some(11),
    }
}

fn remote() -> OpenAiCompletions {
    OpenAiCompletions::new("http://host:1234/v1".to_string(), Some("SECRET-REDACTED".to_string()), "pinned".to_string())
}

fn engine() -> MistralRsCompletions {
    MistralRsCompletions::new("repo/model".to_string(), Some("template.json".to_string()), vec!["model.gguf".to_string()])
}

#[test]
fn remote_stream_call_pins_model() {
    let call = remote().get_completions_stream(request(true)).unwrap();
    assert_eq!(call.method, HttpMethod::Post);
    assert_eq!(call.url, "http://host:1234/v1/chat/completions");
    assert_eq!(call.bearer.as_deref(), Some("SECRET-REDACTED"));
    assert_eq!(call.timeout_secs, None);
    let body = call.body.unwrap();
    assert_eq!(body.model, "pinned");
    assert!(body.stream);
    assert_eq!(body.messages.len(), 2);
    assert_eq!(body.max_tokens, Some(400));
}

#[test]
fn remote_rejects_mode_mismatch() {
    assert!(matches!(remote().get_completions_stream(request(false)), Err(CompletionError::ProtocolViolation)));
    assert!(matches!(remote().get_completions(request(true)), Err(CompletionError::ProtocolViolation)));
    let call = remote().get_completions(request(false)).unwrap();
    assert_eq!(call.url, "http://host:1234/v1/chat/completions");
    assert!(!call.body.unwrap().stream);
}

#[test]
fn remote_model_listing_call() {
    let call = remote().list_models();
    assert_eq!(call.method, HttpMethod::Get);
    assert_eq!(call.url, "http://host:1234/v1/models");
    assert_eq!(call.timeout_secs, Some(2));
    assert!(call.body.is_none());
    let anonymous = OpenAiCompletions::new("http://h".to_string(), None, "m".to_string()).list_models();
    assert!(anonymous.bearer.is_none());
}

#[test]
fn reply_status_is_checked() {
    assert_eq!(check_reply(200, "{}".to_string()).unwrap(), "{}");
    assert!(check_reply(299, "x".to_string()).is_ok());
    match check_reply(404, "not found".to_string()) {
        Err(CompletionError::BadStatus { code, body }) => {
            assert_eq!(code, 404);
            assert_eq!(body, "not found");
        }
        other => panic!("unexpected {:?}", other),
    }
    assert!(matches!(check_reply(300, String::new()), Err(CompletionError::BadStatus { code: 300, .. })));
    assert!(matches!(check_reply(199, String::new()), Err(CompletionError::BadStatus { code: 199, .. })));
}

#[test]
fn model_listing_ids() {
    let listing = ModelsResponse { data: vec![Model { id: "a".to_string() }, Model { id: "b".to_string() }] };
    assert_eq!(listing.into_ids(), vec!["a".to_string(), "b".to_string()]);
}

#[test]
fn engine_submission_maps_request() {
    let e = engine().get_completions_stream(request(true)).unwrap();
    assert_eq!(e.messages.len(), 2);
    assert_eq!(e.messages[0].role, "system");
    assert_eq!(e.messages[0].content, "You're a helpful assistant");
    assert_eq!(e.messages[1].role, "user");
    assert!(e.is_streaming);
    assert!(!e.enable_thinking);
    assert_eq!(e.channel_capacity, RESPONSE_CHANNEL_CAPACITY);
    assert_eq!(e.channel_capacity, 10000);
    assert_eq!(e.sampling.max_len, Some(400));
    assert_eq!(e.sampling.temperature, Some(Real64 { bits: 0.7f64.to_bits() }));
    assert_eq!(e.sampling.top_p, Some(Real64 { bits: 0.9f64.to_bits() }));
    assert_eq!(e.sampling.frequency_penalty, Some(Real32 { bits: 0.5f32.to_bits() }));
    assert_eq!(e.sampling.presence_penalty, None);
    assert_eq!(e.sampling.repeat_penalty, Some(Real32 { bits: 1.1f32.to_bits() }));
    assert_eq!(e.sampling.seed, Some(11));
    assert_eq!(e.sampling.n_choices, 1);
    assert_eq!(e.sampling.top_n_logprobs, 1);
    assert!(e.sampling.top_k.is_none());
}

#[test]
fn engine_rejects_mode_mismatch() {
    assert!(matches!(engine().get_completions_stream(request(false)), Err(CompletionError::ProtocolViolation)));
    assert!(matches!(engine().get_completions(request(true)), Err(CompletionError::ProtocolViolation)));
    let e = engine().get_completions(request(false)).unwrap();
    assert!(e.is_streaming);
    assert_eq!(engine().list_models(), vec!["repo/model".to_string()]);
    assert_eq!(engine().model_id(), "repo/model");
    assert_eq!(engine().chat_template().as_deref(), Some("template.json"));
    assert_eq!(engine().files(), &vec!["model.gguf".to_string()]);
}

#[test]
fn messages_convert_in_order() {
    let items = vec![
        MessageHistoryItem { role: MessageRole::Assistant, content: "x".to_string() },
        MessageHistoryItem { role: MessageRole::User, content: "y".to_string() },
    ];
    let turns = convert_messages(&items);
    assert_eq!(turns.len(), 2);
    assert_eq!((turns[0].role.as_str(), turns[0].content.as_str()), ("assistant", "x"));
    assert_eq!((turns[1].role.as_str(), turns[1].content.as_str()), ("user", "y"));
}

#[test]
fn engine_reply_is_folded() {
    let responses = vec![
        EngineResponse::Chunk(EngineChunk { choices: vec![EngineChoice { content: Some("Hello".to_string()), finish_reason: None }] }),
        EngineResponse::Chunk(EngineChunk { choices: vec![EngineChoice { content: Some(" there".to_string()), finish_reason: None }] }),
        EngineResponse::Chunk(EngineChunk { choices: vec![EngineChoice { content: None, finish_reason: Some("stop".to_string()) }] }),
        EngineResponse::Done,
    ];
    let r = engine().complete_from_responses(responses);
    assert_eq!(r.id.len(), 36);
    assert_eq!(r.id.matches('-').count(), 4);
    assert!(r.created > 1_600_000_000);
    assert_eq!(r.model, "repo/model");
    assert_eq!(r.choices[0].message.content, "Hello there");
    assert_eq!(r.choices[0].finish_reason.as_deref(), Some("stop"));
    assert_eq!(r.choices[0].message.role, MessageRole::Assistant);
}

#[test]
fn timestamps() {
    assert_eq!(timestamp_from_seconds(None), 0);
    assert_eq!(timestamp_from_seconds(Some(5)), 5);
    assert_eq!(timestamp_from_seconds(Some(u64::MAX)), i64::MAX);
    assert!(timestamp() > 1_600_000_000);
}

#[test]
fn native_runtime_fails_closed() {
    let l = LlamaCppCompletions::new("local".to_string(), String::new(), vec![]);
    assert!(matches!(l.get_completions_stream(&request(false)), Err(CompletionError::ProtocolViolation)));
    assert!(matches!(l.get_completions_stream(&request(true)), Err(CompletionError::Unimplemented)));
    assert!(matches!(l.get_completions(&request(true)), Err(CompletionError::ProtocolViolation)));
    assert!(matches!(l.get_completions(&request(false)), Err(CompletionError::Unimplemented)));
    assert_eq!(l.list_models(), vec!["local".to_string()]);
}

#[test]
fn dispatcher_routes_and_rejects_mismatch() {
    let apis = CompletionApis::OpenAi(remote());
    assert!(matches!(apis.get_completions_stream(request(false)), Err(CompletionError::ProtocolViolation)));
    assert!(matches!(apis.get_completions(request(true)), Err(CompletionError::ProtocolViolation)));
    assert!(matches!(apis.get_completions_stream(request(true)), Ok(BackendCall::Http(_))));
    assert!(matches!(apis.list_models(), ModelsPlan::Fetch(_)));
    let local = CompletionApis::Mistral(engine());
    assert!(matches!(local.get_completions_stream(request(false)), Err(CompletionError::ProtocolViolation)));
    assert!(matches!(local.get_completions(request(false)), Ok(BackendCall::Engine(_))));
    match local.list_models() {
        ModelsPlan::Known(models) => assert_eq!(models, vec!["repo/model".to_string()]),
        other => panic!("unexpected {:?}", other),
    }
    let native = CompletionApis::Llama(LlamaCppCompletions::new("n".to_string(), String::new(), vec![]));
    assert!(matches!(native.get_completions_stream(request(false)), Err(CompletionError::ProtocolViolation)));
    assert!(matches!(native.get_completions_stream(request(true)), Err(CompletionError::Unimplemented)));
}

#[test]
fn empty_slot_reports_no_model() {
    let slot = ModelSlot::new();
    assert!(slot.active().is_none());
    assert!(matches!(slot.get_completions_stream(request(true)), Err(CompletionError::NoModelLoaded)));
    assert!(matches!(slot.get_completions(request(false)), Err(CompletionError::NoModelLoaded)));
    assert!(matches!(slot.list_models(), Err(CompletionError::NoModelLoaded)));
}

#[test]
fn swap_does_not_redirect_issued_call() {
    let mut slot = ModelSlot::new();
    slot.load(CompletionApis::OpenAi(remote()));
    let issued = slot.get_completions_stream(request(true)).unwrap();
    slot.load(CompletionApis::OpenAi(OpenAiCompletions::new("http://other".to_string(), None, "other".to_string())));
    let later = slot.get_completions_stream(request(true)).unwrap();
    match (issued, later) {
        (BackendCall::Http(a), BackendCall::Http(b)) => {
            assert_eq!(a.url, "http://host:1234/v1/chat/completions");
            assert_eq!(a.body.unwrap().model, "pinned");
            assert_eq!(b.url, "http://other/chat/completions");
            assert_eq!(b.body.unwrap().model, "other");
        }
        other => panic!("unexpected {:?}", other),
    }
    slot.unload();
    assert!(matches!(slot.get_completions_stream(request(true)), Err(CompletionError::NoModelLoaded)));
}

#[test]
fn load_requests_become_backends() {
    let api = LoadModel::OpenAi { api_url: "http://a".to_string(), api_key: None, model: "m".to_string() }.to_api();
    match api.list_models() {
        ModelsPlan::Fetch(call) => assert_eq!(call.url, "http://a/models"),
        other => panic!("unexpected {:?}", other),
    }
    let local = LoadModel::Mistral { model_id: "r".to_string(), chat_template: "t".to_string(), file_name: "f.gguf".to_string() }.to_api();
    match local {
        CompletionApis::Mistral(m) => {
            assert_eq!(m.model_id(), "r");
            assert_eq!(m.chat_template().as_deref(), Some("t"));
            assert_eq!(m.files(), &vec!["f.gguf".to_string()]);
        }
        other => panic!("unexpected {:?}", other),
    }
    assert_eq!(get_backends(true), vec![BackendType::OpenAi, BackendType::Mistral]);
    assert_eq!(get_backends(false), vec![BackendType::OpenAi]);
}

#[test]
fn connection_probe() {
    let call = test_connection("http://probe".to_string(), Some("k".to_string()));
    assert_eq!(call.url, "http://probe/models");
    assert_eq!(call.bearer.as_deref(), Some("k"));
    assert!(matches!(connection_test_result(Ok(vec!["m".to_string()])), ConnectionTestResult::Success { models } if models == vec!["m".to_string()]));
    assert!(matches!(connection_test_result(Ok(vec![])), ConnectionTestResult::Failure { error } if error == "No models found"));
    assert!(matches!(connection_test_result(Err("refused".to_string())), ConnectionTestResult::Failure { error } if error == "Failed to connect: refused"));
}

fn one(content: Option<&str>, finish: Option<&str>) -> EngineResponse {
    EngineResponse::Chunk(EngineChunk {
        choices: vec![EngineChoice { content: content.map(|c| c.to_string()), finish_reason: finish.map(|f| f.to_string()) }],
    })
}

#[test]
fn engine_batch_reports_terminal_finish_reason() {
    let responses = vec![one(Some("Hello"), None), one(Some(" "), None), one(Some("world"), None), one(Some(""), Some("stop")), EngineResponse::Done];
    let r = engine().complete_from_responses(responses);
    assert_eq!(r.choices.len(), 1);
    assert_eq!(r.choices[0].message.content, "Hello world");
    assert_eq!(r.choices[0].finish_reason.as_deref(), Some("stop"));
}

fn two(first_finish: Option<&str>) -> EngineResponse {
    EngineResponse::Chunk(EngineChunk {
        choices: vec![
            EngineChoice { content: Some("a".to_string()), finish_reason: first_finish.map(|f| f.to_string()) },
            EngineChoice { content: Some("b".to_string()), finish_reason: None },
        ],
    })
}

#[test]
fn observed_finish_reason_cases() {
    assert_eq!(observed_finish(&vec![]), None);
    let ended_by_error = vec![two(Some("length")), EngineResponse::Other, EngineResponse::InternalError("x".to_string()), one(None, Some("stop"))];
    assert_eq!(observed_finish(&ended_by_error).as_deref(), Some("length"));
    let terminal = vec![one(Some("a"), None), one(None, Some("stop")), one(None, Some("later"))];
    assert_eq!(observed_finish(&terminal).as_deref(), Some("stop"));
    let empty_terminal = vec![two(Some("length")), EngineResponse::Chunk(EngineChunk { choices: vec![] })];
    assert_eq!(observed_finish(&empty_terminal).as_deref(), Some("length"));
    assert_eq!(observed_finish(&vec![one(Some("a"), None), EngineResponse::Done]), None);
    assert_eq!(observed_finish(&vec![one(None, Some("stop"))]), None);
    assert_eq!(observed_finish(&vec![one(Some("a"), Some("length")), one(Some("x"), None)]), None);
    assert_eq!(observed_finish(&vec![EngineResponse::Other, one(None, Some("stop")), one(Some("x"), None)]), None);
    assert_eq!(observed_finish(&vec![EngineResponse::Other, one(Some("a"), None), EngineResponse::Other, one(None, Some("stop"))]).as_deref(), Some("stop"));
}

#[test]
fn engine_batch_with_nothing_yielded_has_no_finish_reason() {
    let r = engine().complete_from_responses(vec![one(Some(""), Some("stop")), EngineResponse::Done]);
    assert_eq!(r.choices.len(), 1);
    assert_eq!(r.choices[0].message.content, "");
    assert_eq!(r.choices[0].finish_reason, None);
    let empty = engine().complete_from_responses(vec![]);
    assert_eq!(empty.choices[0].message.content, "");
    assert_eq!(empty.choices[0].finish_reason, None);
}

#[test]
fn engine_settings_are_fixed() {
    let s = engine().engine_settings(true);
    assert_eq!(s.paged_attention, Some(PagedAttention { block_size: 32, context_size: 8192 }));
    assert_eq!(s.scheduler_slots, 32);
    assert!(s.kv_cache && s.prefix_cache);
    assert_eq!(s.prefix_cache_entries, 16);
    assert_eq!(engine().engine_settings(false).paged_attention, None);
}
