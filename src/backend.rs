//! Choosing and loading a backend, and probing a remote service.
use vstd::prelude::*;
use vstd::string::StringExecFns;

use crate::dispatch::CompletionApis;
use crate::mistral::MistralRsCompletions;
use crate::normalize::opt_view;
use crate::open_ai::{HttpCall, HttpMethod, OpenAiCompletions, LIST_MODELS_TIMEOUT_SECS};

verus! {

/// The kinds of backend a user can pick.
#[derive(Debug, Clone, Copy, PartialEq, Eq, Structural)]
pub enum BackendType {
    OpenAi,
    Mistral,
}

/// The backends on offer: the remote one always, the embedded engine where
/// the host was built with it.
pub fn get_backends(engine_available: bool) -> (r: Vec<BackendType>)
    ensures
        engine_available ==> r@ == seq![BackendType::OpenAi, BackendType::Mistral],
        !engine_available ==> r@ == seq![BackendType::OpenAi],
{
    let mut backends: Vec<BackendType> = Vec::new();
    backends.push(BackendType::OpenAi);
    if engine_available {
        backends.push(BackendType::Mistral);
    }
    backends
}

/// What the user asked to load.
#[derive(Debug, Clone)]
pub enum LoadModel {
    OpenAi { api_url: String, api_key: Option<String>, model: String },
    Mistral { model_id: String, chat_template: String, file_name: String },
}

impl LoadModel {
    /// The backend configuration for the request.
    pub fn to_api(self) -> (r: CompletionApis)
        ensures
            match self {
                LoadModel::OpenAi { api_url, api_key, model } => r matches CompletionApis::OpenAi(o)
                    && o.base() == api_url@ && o.key() == opt_view(api_key) && o.model_id() == model@,
                LoadModel::Mistral { model_id, chat_template, file_name } => r matches CompletionApis::Mistral(m)
                    && m.model() == model_id@ && m.template() == Some(chat_template@)
                    && m.model_files().len() == 1 && m.model_files()[0]@ == file_name@,
            },
    {
        match self {
            LoadModel::OpenAi { api_url, api_key, model } => CompletionApis::OpenAi(
                OpenAiCompletions::new(api_url, api_key, model),
            ),
            LoadModel::Mistral { model_id, chat_template, file_name } => {
                let mut files: Vec<String> = Vec::new();
                files.push(file_name);
                CompletionApis::Mistral(MistralRsCompletions::new(model_id, Some(chat_template), files))
            },
        }
    }
}

/// The outcome of probing a remote service.
#[derive(Debug, Clone)]
pub enum ConnectionTestResult {
    Success { models: Vec<String> },
    Failure { error: String },
}

/// The listing call that probes a remote service; the model name does not
/// matter for a listing.
pub fn test_connection(api_url: String, api_key: Option<String>) -> (r: HttpCall)
    ensures
        r.method == HttpMethod::Get,
        r.url@ == api_url@ + "/models"@,
        opt_view(r.bearer) == opt_view(api_key),
        r.body is None,
        r.timeout_secs == Some(LIST_MODELS_TIMEOUT_SECS),
{
    let api = OpenAiCompletions::new(api_url, api_key, "ignored".to_owned());
    api.list_models()
}

/// Judges a probe: a listing with at least one model succeeds, an empty one
/// fails, and so does a call that could not be made, with its reason.
pub fn connection_test_result(listed: Result<Vec<String>, String>) -> (r: ConnectionTestResult)
    ensures
        listed matches Ok(m) ==> if m@.len() > 0 {
            r matches ConnectionTestResult::Success { models } && models == m
        } else {
            r matches ConnectionTestResult::Failure { error } && error@ == "No models found"@
        },
        listed matches Err(e) ==> (r matches ConnectionTestResult::Failure { error } && error@
            == "Failed to connect: "@ + e@),
{
    match listed {
        Ok(models) => {
            if models.len() == 0 {
                ConnectionTestResult::Failure { error: "No models found".to_owned() }
            } else {
                ConnectionTestResult::Success { models }
            }
        },
        Err(e) => {
            let mut error = "Failed to connect: ".to_owned();
            error.append(e.as_str());
            ConnectionTestResult::Failure { error }
        },
    }
}

} // verus!
