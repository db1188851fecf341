//! The dispatcher: one closed set of backend variants behind one interface,
//! and the slot that holds the single active backend.
use vstd::prelude::*;

use crate::error::CompletionError;
use crate::llama::LlamaCppCompletions;
use crate::message::CompletionRequest;
use crate::mistral::{engine_request_for, EngineRequest, MistralRsCompletions};
use crate::normalize::opt_view;
use crate::open_ai::{posts_request, HttpCall, HttpMethod, OpenAiCompletions, LIST_MODELS_TIMEOUT_SECS};

verus! {

/// The outside work a completion call asks the host to do.
#[derive(Debug)]
pub enum BackendCall {
    /// An HTTP call to a remote service.
    Http(HttpCall),
    /// A submission to the embedded engine's intake queue.
    Engine(EngineRequest),
}

/// How a backend answers a model listing.
#[derive(Debug)]
pub enum ModelsPlan {
    /// The answer is known without asking anyone.
    Known(Vec<String>),
    /// The host performs the call and decodes the listing.
    Fetch(HttpCall),
}

/// The backends the application can drive.
#[derive(Debug)]
pub enum CompletionApis {
    Llama(LlamaCppCompletions),
    Mistral(MistralRsCompletions),
    OpenAi(OpenAiCompletions),
}

/// `r` is what a streaming call on `api` gives for `request`.
pub open spec fn stream_call_for(
    api: CompletionApis,
    request: CompletionRequest,
    r: Result<BackendCall, CompletionError>,
) -> bool {
    if !request.stream {
        r matches Err(CompletionError::ProtocolViolation)
    } else {
        match api {
            CompletionApis::Llama(_) => r matches Err(CompletionError::Unimplemented),
            CompletionApis::Mistral(_) => r matches Ok(BackendCall::Engine(e))
                && engine_request_for(request, e),
            CompletionApis::OpenAi(o) => r matches Ok(BackendCall::Http(c)) && posts_request(
                c,
                o.base() + "/chat/completions"@,
                o.key(),
                o.model_id(),
                request,
            ),
        }
    }
}

/// `r` is what a non-streaming call on `api` gives for `request`.
pub open spec fn batch_call_for(
    api: CompletionApis,
    request: CompletionRequest,
    r: Result<BackendCall, CompletionError>,
) -> bool {
    if request.stream {
        r matches Err(CompletionError::ProtocolViolation)
    } else {
        match api {
            CompletionApis::Llama(_) => r matches Err(CompletionError::Unimplemented),
            CompletionApis::Mistral(_) => r matches Ok(BackendCall::Engine(e))
                && engine_request_for(request, e),
            CompletionApis::OpenAi(o) => r matches Ok(BackendCall::Http(c)) && posts_request(
                c,
                o.base() + "/chat/completions"@,
                o.key(),
                o.model_id(),
                request,
            ),
        }
    }
}

/// `r` is how `api` answers a model listing: local backends name their one
/// model, the remote one is asked.
pub open spec fn models_plan_for(api: CompletionApis, r: ModelsPlan) -> bool {
    match api {
        CompletionApis::Llama(l) => r matches ModelsPlan::Known(v) && v@.len() == 1 && v@[0]@
            == l.model(),
        CompletionApis::Mistral(m) => r matches ModelsPlan::Known(v) && v@.len() == 1 && v@[0]@
            == m.model(),
        CompletionApis::OpenAi(o) => r matches ModelsPlan::Fetch(c) && c.method == HttpMethod::Get
            && c.url@ == o.base() + "/models"@ && opt_view(c.bearer) == o.key() && c.body is None
            && c.timeout_secs == Some(LIST_MODELS_TIMEOUT_SECS),
    }
}

impl CompletionApis {
    /// Forwards a streaming call to the backend.
    pub fn get_completions_stream(&self, request: CompletionRequest) -> (r: Result<BackendCall, CompletionError>)
        ensures
            stream_call_for(*self, request, r),
    {
        match self {
            CompletionApis::Llama(api) => api.get_completions_stream(&request),
            CompletionApis::Mistral(api) => match api.get_completions_stream(request) {
                Ok(e) => Ok(BackendCall::Engine(e)),
                Err(e) => Err(e),
            },
            CompletionApis::OpenAi(api) => match api.get_completions_stream(request) {
                Ok(c) => Ok(BackendCall::Http(c)),
                Err(e) => Err(e),
            },
        }
    }

    /// Forwards a non-streaming call to the backend.
    pub fn get_completions(&self, request: CompletionRequest) -> (r: Result<BackendCall, CompletionError>)
        ensures
            batch_call_for(*self, request, r),
    {
        match self {
            CompletionApis::Llama(api) => api.get_completions(&request),
            CompletionApis::Mistral(api) => match api.get_completions(request) {
                Ok(e) => Ok(BackendCall::Engine(e)),
                Err(e) => Err(e),
            },
            CompletionApis::OpenAi(api) => match api.get_completions(request) {
                Ok(c) => Ok(BackendCall::Http(c)),
                Err(e) => Err(e),
            },
        }
    }

    /// Forwards a model listing to the backend.
    pub fn list_models(&self) -> (r: ModelsPlan)
        ensures
            models_plan_for(*self, r),
    {
        match self {
            CompletionApis::Llama(api) => ModelsPlan::Known(api.list_models()),
            CompletionApis::Mistral(api) => ModelsPlan::Known(api.list_models()),
            CompletionApis::OpenAi(api) => ModelsPlan::Fetch(api.list_models()),
        }
    }
}

/// The slot that owns the one active backend. Loading a backend replaces
/// and drops the previous one. A call reads the slot once, when it is issued,
/// and the work it hands out carries everything it needs.
#[derive(Debug)]
pub struct ModelSlot {
    active: Option<CompletionApis>,
}

/// `r` is what a streaming call on the slot gives for `request`.
pub open spec fn slot_stream_for(
    active: Option<CompletionApis>,
    request: CompletionRequest,
    r: Result<BackendCall, CompletionError>,
) -> bool {
    match active {
        None => r matches Err(CompletionError::NoModelLoaded),
        Some(api) => stream_call_for(api, request, r),
    }
}

/// `r` is what a non-streaming call on the slot gives for `request`.
pub open spec fn slot_batch_for(
    active: Option<CompletionApis>,
    request: CompletionRequest,
    r: Result<BackendCall, CompletionError>,
) -> bool {
    match active {
        None => r matches Err(CompletionError::NoModelLoaded),
        Some(api) => batch_call_for(api, request, r),
    }
}

impl ModelSlot {
    /// The active backend.
    pub closed spec fn current(&self) -> Option<CompletionApis> {
        self.active
    }

    /// An empty slot.
    pub fn new() -> (r: Self)
        ensures
            r.current() is None,
    {
        ModelSlot { active: None }
    }

    /// Installs a backend in place of the previous one.
    pub fn load(&mut self, api: CompletionApis)
        ensures
            final(self).current() == Some(api),
    {
        self.active = Some(api);
    }

    /// Drops the active backend.
    pub fn unload(&mut self)
        ensures
            final(self).current() is None,
    {
        self.active = None;
    }

    /// The active backend, if one is loaded.
    pub fn active(&self) -> (r: &Option<CompletionApis>)
        ensures
            *r == self.current(),
    {
        &self.active
    }

    /// Routes a streaming call to the active backend.
    pub fn get_completions_stream(&self, request: CompletionRequest) -> (r: Result<BackendCall, CompletionError>)
        ensures
            slot_stream_for(self.current(), request, r),
    {
        match &self.active {
            None => Err(CompletionError::NoModelLoaded),
            Some(api) => api.get_completions_stream(request),
        }
    }

    /// Routes a non-streaming call to the active backend.
    pub fn get_completions(&self, request: CompletionRequest) -> (r: Result<BackendCall, CompletionError>)
        ensures
            slot_batch_for(self.current(), request, r),
    {
        match &self.active {
            None => Err(CompletionError::NoModelLoaded),
            Some(api) => api.get_completions(request),
        }
    }

    /// Routes a model listing to the active backend.
    pub fn list_models(&self) -> (r: Result<ModelsPlan, CompletionError>)
        ensures
            self.current() is None ==> r matches Err(CompletionError::NoModelLoaded),
            self.current() matches Some(api) ==> (r matches Ok(p) && models_plan_for(api, p)),
    {
        match &self.active {
            None => Err(CompletionError::NoModelLoaded),
            Some(api) => Ok(api.list_models()),
        }
    }
}

/// A request is served by at most one of the two operations: the streaming
/// one refuses a request whose `stream` flag is off, and the non-streaming
/// one refuses a request whose flag is on, whatever the backend.
pub proof fn lemma_mode_mismatch_rejected(
    api: CompletionApis,
    request: CompletionRequest,
    streamed: Result<BackendCall, CompletionError>,
    batched: Result<BackendCall, CompletionError>,
)
    requires
        stream_call_for(api, request, streamed),
        batch_call_for(api, request, batched),
    ensures
        !request.stream ==> streamed matches Err(CompletionError::ProtocolViolation),
        request.stream ==> batched matches Err(CompletionError::ProtocolViolation),
        !(streamed is Ok && batched is Ok),
{
}

/// Swapping the backend does not redirect a call already issued: the work a
/// streaming call handed out before the swap is the old backend's, whatever is
/// loaded afterwards, while a call issued after the swap is served by the new
/// backend.
pub proof fn lemma_swap_does_not_redirect(
    before: ModelSlot,
    after: ModelSlot,
    replacement: CompletionApis,
    request: CompletionRequest,
    issued: Result<BackendCall, CompletionError>,
    later_request: CompletionRequest,
    later: Result<BackendCall, CompletionError>,
)
    requires
        before.current() is Some,
        slot_stream_for(before.current(), request, issued),
        after.current() == Some(replacement),
        slot_stream_for(after.current(), later_request, later),
    ensures
        stream_call_for(before.current()->0, request, issued),
        stream_call_for(replacement, later_request, later),
{
}

} // verus!
