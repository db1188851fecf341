//! Conversation and character records shared with the synchronization
//! service.
use vstd::prelude::*;

use crate::message::MessageRole;

verus! {

/// A stored conversation.
#[derive(Debug)]
pub struct Chat {
    pub id: i32,
    pub uuid: uuid::Uuid,
    pub created_at: String,
    pub title: Option<String>,
    pub character_id: i32,
    pub data: Vec<ChatHistoryItem>,
    pub archived: bool,
}

/// One turn of a stored conversation: every answer generated for it, and the
/// index of the one the user chose.
#[derive(Debug, Clone)]
pub struct ChatHistoryItem {
    pub role: MessageRole,
    pub content: Vec<ChatContent>,
    pub chosen_answer: usize,
}

/// One generated answer.
#[derive(Debug, Clone)]
pub struct ChatContent {
    pub content: String,
    pub timestamp: i64,
    pub model_id: String,
}

/// The description of a character the user chats with.
#[derive(Debug, Clone)]
pub struct CharacterInformation {
    pub name: String,
    pub description: String,
    pub personality: String,
    pub first_messages: Vec<String>,
    pub tags: Vec<String>,
    pub system_prompt: String,
    pub avatar: Option<String>,
    pub image_base64: Option<String>,
}

/// A stored character.
#[derive(Debug)]
pub struct Character {
    pub id: i32,
    pub url: Option<String>,
    pub payload: CharacterInformation,
    pub uuid: Option<uuid::Uuid>,
}

} // verus!
