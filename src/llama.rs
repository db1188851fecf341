//! The adapter for a native local runtime. Generation is not wired yet, so
//! every generation call fails closed.
use vstd::prelude::*;

use crate::dispatch::BackendCall;
use crate::error::CompletionError;
use crate::message::CompletionRequest;

verus! {

/// The native runtime adapter's configuration: the model it serves.
#[derive(Debug, Clone)]
pub struct LlamaCppCompletions {
    model_id: String,
}

impl LlamaCppCompletions {
    /// The model identifier.
    pub closed spec fn model(&self) -> Seq<char> {
        self.model_id@
    }

    /// An adapter for the model; the template and the files are not used
    /// until generation is wired.
    pub fn new(model_id: String, chat_template: String, files: Vec<String>) -> (r: Self)
        ensures
            r.model() == model_id@,
    {
        LlamaCppCompletions { model_id }
    }

    /// Refuses a request whose `stream` flag is off, and fails closed on the
    /// others.
    pub fn get_completions_stream(&self, request: &CompletionRequest) -> (r: Result<BackendCall, CompletionError>)
        ensures
            !request.stream ==> r matches Err(CompletionError::ProtocolViolation),
            request.stream ==> r matches Err(CompletionError::Unimplemented),
    {
        if !request.stream {
            Err(CompletionError::ProtocolViolation)
        } else {
            Err(CompletionError::Unimplemented)
        }
    }

    /// Refuses a request whose `stream` flag is on, and fails closed on the
    /// others.
    pub fn get_completions(&self, request: &CompletionRequest) -> (r: Result<BackendCall, CompletionError>)
        ensures
            request.stream ==> r matches Err(CompletionError::ProtocolViolation),
            !request.stream ==> r matches Err(CompletionError::Unimplemented),
    {
        if request.stream {
            Err(CompletionError::ProtocolViolation)
        } else {
            Err(CompletionError::Unimplemented)
        }
    }

    /// The configured model.
    pub fn list_models(&self) -> (r: Vec<String>)
        ensures
            r@.len() == 1,
            r@[0]@ == self.model(),
    {
        let mut models: Vec<String> = Vec::new();
        models.push(self.model_id.clone());
        models
    }
}

} // verus!
