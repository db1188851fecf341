//! The remote adapter for an OpenAI-compatible HTTP service.
use vstd::prelude::*;

use vstd::string::StringExecFns;

use crate::error::CompletionError;
use crate::message::{CompletionRequest, StreamingCompletionResponse};
use crate::normalize::{
    deltas_view, drain_steps, lemma_skip_is_invisible, opt_view, stream_items, ChoiceView,
    StepView, StreamStep,
};
use crate::shaping::same_settings;

verus! {

/// One event of a server-sent-event stream, as the host received it.
#[derive(Debug)]
pub enum SseEvent {
    /// The connection opened.
    Open,
    /// A `message` event; it holds the delta item its data decoded to, or
    /// `None` where the data was not a valid item.
    Message(Option<StreamingCompletionResponse>),
    /// The event source failed or closed.
    Failed,
}

/// How the stream treats an event: an open is ignored, a message that
/// decoded is handed on, one that did not is dropped, and a failure ends the
/// stream.
pub open spec fn sse_step(ev: SseEvent) -> StepView {
    match ev {
        SseEvent::Open => StepView::Skip,
        SseEvent::Message(Some(r)) => StepView::Item(r@),
        SseEvent::Message(None) => StepView::Skip,
        SseEvent::Failed => StepView::End,
    }
}

/// The delta items a consumer sees for a sequence of events.
pub open spec fn sse_items(events: Seq<SseEvent>) -> Seq<Seq<ChoiceView>> {
    stream_items(events.map_values(|e: SseEvent| sse_step(e)))
}

/// Classifies one event of the stream.
pub fn classify_sse_event(ev: SseEvent) -> (r: StreamStep)
    ensures
        r@ == sse_step(ev),
{
    match ev {
        SseEvent::Open => StreamStep::Skip,
        SseEvent::Message(Some(r)) => StreamStep::Item(r),
        SseEvent::Message(None) => StreamStep::Skip,
        SseEvent::Failed => StreamStep::End,
    }
}

/// The delta items of a whole event sequence: decoded messages in order, up
/// to the first failure, with opens and undecodable messages dropped.
pub fn normalize_sse(events: Vec<SseEvent>) -> (r: Vec<StreamingCompletionResponse>)
    ensures
        deltas_view(r@) == sse_items(events@),
{
    let ghost raw = events@;
    let mut steps: Vec<StreamStep> = Vec::new();
    for ev in it: events
        invariant
            it.seq() == raw,
            steps@.len() == it.index(),
            forall|k: int| 0 <= k < steps@.len() ==> (#[trigger] steps@[k])@ == sse_step(raw[k]),
    {
        steps.push(classify_sse_event(ev));
    }
    proof {
        assert(steps@.map_values(|s: StreamStep| s@) =~= raw.map_values(|e: SseEvent| sse_step(e)));
    }
    drain_steps(steps)
}

/// A message whose data did not decode is dropped without disturbing the
/// items around it.
pub proof fn lemma_malformed_message_skipped(before: Seq<SseEvent>, after: Seq<SseEvent>)
    ensures
        sse_items(before + seq![SseEvent::Message(None)] + after) == sse_items(before + after),
{
    let f = |e: SseEvent| sse_step(e);
    lemma_skip_is_invisible(before.map_values(f), after.map_values(f));
    assert((before + seq![SseEvent::Message(None)] + after).map_values(f) =~= before.map_values(f)
        + seq![StepView::Skip] + after.map_values(f));
    assert((before + after).map_values(f) =~= before.map_values(f) + after.map_values(f));
}

/// The HTTP verbs the adapter uses.
#[derive(Debug, Clone, Copy, PartialEq, Eq, Structural)]
pub enum HttpMethod {
    Get,
    Post,
}

/// An HTTP call for the host to perform: the request body, when there is
/// one, is sent as JSON with every absent optional field left out.
#[derive(Debug)]
pub struct HttpCall {
    pub method: HttpMethod,
    pub url: String,
    pub bearer: Option<String>,
    pub body: Option<CompletionRequest>,
    pub timeout_secs: Option<u64>,
}

/// The client-side timeout of a model listing, in seconds: short, so that
/// probing a backend keeps the interface responsive.
pub const LIST_MODELS_TIMEOUT_SECS: u64 = 2;

/// `code` is a success status (2xx).
pub open spec fn is_success(code: u16) -> bool {
    200 <= code <= 299
}

/// `call` posts `request`, with the model pinned to `model`, to `url`.
pub open spec fn posts_request(
    call: HttpCall,
    url: Seq<char>,
    bearer: Option<Seq<char>>,
    model: Seq<char>,
    request: CompletionRequest,
) -> bool {
    &&& call.method == HttpMethod::Post
    &&& call.url@ == url
    &&& opt_view(call.bearer) == bearer
    &&& call.timeout_secs is None
    &&& call.body matches Some(b) && b.model@ == model && b.messages == request.messages
        && same_settings(b, CompletionRequest { model: b.model, ..request })
}

/// The configuration of the remote adapter: the service's base URL, an
/// optional bearer credential, and the model every request is pinned to.
#[derive(Debug)]
pub struct OpenAiCompletions {
    base_url: String,
    api_key: Option<String>,
    model: String,
}

impl OpenAiCompletions {
    /// The base URL.
    pub closed spec fn base(&self) -> Seq<char> {
        self.base_url@
    }

    /// The bearer credential.
    pub closed spec fn key(&self) -> Option<Seq<char>> {
        opt_view(self.api_key)
    }

    /// The model requests are pinned to.
    pub closed spec fn model_id(&self) -> Seq<char> {
        self.model@
    }

    pub fn new(api_url: String, api_key: Option<String>, model: String) -> (r: Self)
        ensures
            r.base() == api_url@,
            r.key() == opt_view(api_key),
            r.model_id() == model@,
    {
        OpenAiCompletions { base_url: api_url, api_key, model }
    }

    fn bearer(&self) -> (r: Option<String>)
        ensures
            opt_view(r) == self.key(),
    {
        match &self.api_key {
            Some(k) => Some(k.clone()),
            None => None,
        }
    }

    fn endpoint(&self, path: &str) -> (r: String)
        ensures
            r@ == self.base() + path@,
    {
        let mut url = self.base_url.clone();
        url.append(path);
        url
    }

    fn pinned_post(&self, request: CompletionRequest) -> (r: HttpCall)
        ensures
            posts_request(r, self.base() + "/chat/completions"@, self.key(), self.model_id(), request),
    {
        let url = self.endpoint("/chat/completions");
        let bearer = self.bearer();
        let body = CompletionRequest { model: self.model.clone(), ..request };
        HttpCall { method: HttpMethod::Post, url, bearer, body: Some(body), timeout_secs: None }
    }

    /// The event-stream call for a streaming request: a POST to
    /// `{base}/chat/completions` whose body has its model replaced by the
    /// configured one. A request whose `stream` flag is off is refused.
    pub fn get_completions_stream(&self, request: CompletionRequest) -> (r: Result<HttpCall, CompletionError>)
        ensures
            !request.stream ==> r matches Err(CompletionError::ProtocolViolation),
            request.stream ==> (r matches Ok(call) && posts_request(
                call,
                self.base() + "/chat/completions"@,
                self.key(),
                self.model_id(),
                request,
            )),
    {
        if !request.stream {
            return Err(CompletionError::ProtocolViolation);
        }
        Ok(self.pinned_post(request))
    }

    /// The call for a non-streaming request, shaped as the streaming one. A
    /// request whose `stream` flag is on is refused.
    pub fn get_completions(&self, request: CompletionRequest) -> (r: Result<HttpCall, CompletionError>)
        ensures
            request.stream ==> r matches Err(CompletionError::ProtocolViolation),
            !request.stream ==> (r matches Ok(call) && posts_request(
                call,
                self.base() + "/chat/completions"@,
                self.key(),
                self.model_id(),
                request,
            )),
    {
        if request.stream {
            return Err(CompletionError::ProtocolViolation);
        }
        Ok(self.pinned_post(request))
    }

    /// The model listing call: a GET of `{base}/models` with the bearer
    /// credential and a short timeout.
    pub fn list_models(&self) -> (r: HttpCall)
        ensures
            r.method == HttpMethod::Get,
            r.url@ == self.base() + "/models"@,
            opt_view(r.bearer) == self.key(),
            r.body is None,
            r.timeout_secs == Some(LIST_MODELS_TIMEOUT_SECS),
    {
        let url = self.endpoint("/models");
        let bearer = self.bearer();
        HttpCall { method: HttpMethod::Get, url, bearer, body: None, timeout_secs: Some(LIST_MODELS_TIMEOUT_SECS) }
    }
}

/// Settles the reply of a non-streaming call: a success status hands the body
/// on for decoding; any other status is an error carrying the status and the
/// full body.
pub fn check_reply(code: u16, body: String) -> (r: Result<String, CompletionError>)
    ensures
        is_success(code) ==> r == Ok::<String, CompletionError>(body),
        !is_success(code) ==> (r matches Err(CompletionError::BadStatus { code: c, body: b }) && c
            == code && b == body),
{
    if 200 <= code && code <= 299 {
        Ok(body)
    } else {
        Err(CompletionError::BadStatus { code, body })
    }
}

/// One entry of a model listing.
#[derive(Debug, Clone)]
pub struct Model {
    pub id: String,
}

/// The `{data: [{id}]}` envelope of a model listing.
#[derive(Debug, Clone)]
pub struct ModelsResponse {
    pub data: Vec<Model>,
}

impl ModelsResponse {
    /// The ids of the listed models, in order.
    pub fn into_ids(self) -> (r: Vec<String>)
        ensures
            r@.len() == self.data@.len(),
            forall|k: int| 0 <= k < r@.len() ==> #[trigger] r@[k] == self.data@[k].id,
    {
        let ghost data = self.data@;
        let mut ids: Vec<String> = Vec::new();
        for m in it: self.data
            invariant
                it.seq() == data,
                ids@.len() == it.index(),
                forall|k: int| 0 <= k < ids@.len() ==> #[trigger] ids@[k] == data[k].id,
        {
            ids.push(m.id);
        }
        ids
    }
}

} // verus!
