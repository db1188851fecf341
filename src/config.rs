//! The user's settings, as the host hands them over.
use vstd::prelude::*;

use crate::message::{Real32, Real64};

verus! {

#[derive(Debug, Clone, Default)]
pub struct SyncSettings {
    pub server_url: Option<String>,
    pub client_id: Option<String>,
    pub api_key: Option<String>,
}

/// Sampling settings for chat completions, and whether reasoning sections
/// of earlier replies are dropped before a request is sent (they are unless
/// the setting says otherwise).
#[derive(Debug, Clone, Default)]
pub struct LlmSettings {
    pub max_tokens: Option<usize>,
    pub temperature: Option<Real64>,
    pub frequency_penalty: Option<Real32>,
    pub presence_penalty: Option<Real32>,
    pub repeat_penalty: Option<Real32>,
    pub top_p: Option<Real64>,
    pub seed: Option<i64>,
    pub strip_thinking_tags: Option<bool>,
}

#[derive(Debug, Clone, Default)]
pub struct NotificationSettings {
    pub new_message: bool,
}

#[derive(Debug, Clone, Default)]
pub struct ExperimentalSettings {
    pub local_llm: bool,
    pub text_to_speech: bool,
}

#[derive(Debug, Clone, Default)]
pub struct Config {
    pub user_name: String,
    pub notifications: NotificationSettings,
    pub sync: SyncSettings,
    pub llm: LlmSettings,
    pub experimental: ExperimentalSettings,
}

} // verus!
