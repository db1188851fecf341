//! Completion abstraction layer for a desktop chat client: one streaming
//! chat-completion contract over a remote OpenAI-compatible HTTP service, an
//! embedded inference engine with its own request queue, and a native local
//! runtime.
//!
//! Everything here is decision logic on plain values. The host performs the
//! network calls, the engine submissions and the decoding of wire bodies, and
//! hands the outcomes back to the functions of this crate.
pub mod backend;
pub mod character;
pub mod chat;
pub mod config;
pub mod disk;
pub mod dispatch;
pub mod error;
pub mod llama;
pub mod message;
pub mod mistral;
pub mod normalize;
pub mod open_ai;
pub mod shaping;
pub mod sync;
mod trusted;
pub mod types;

pub use message::{
    CompletionChoice, CompletionMessage, CompletionRequest, CompletionResponse, DeltaContent,
    MessageHistoryItem, MessageRole, Real32, Real64, StreamingCompletionChoice,
    StreamingCompletionResponse,
};
pub use shaping::estimate_tokens;
