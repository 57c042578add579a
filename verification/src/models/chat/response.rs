//! What the service answers about chats.

use super::model::{ChatModel, ChatType, MsgModel, MsgType};
use vstd::prelude::*;

verus! {

pub struct GenericResponse {
    pub status: String,
    pub message: String,
}

pub struct ChatResponse {
    pub id: String,
    pub src_type: ChatType,
    /// Milliseconds.
    pub duration: u64,
    pub messages: Vec<MsgModel>,
}

pub struct MsgResponse {
    pub msg_type: MsgType,
    pub content: String,
    pub created_at: i64,
    pub booked: bool,
    pub chat: Option<Vec<ChatModel>>,
}

pub struct ChatData {
    pub chat: ChatResponse,
}

pub struct SingleChatResponse {
    pub status: &'static str,
    pub data: ChatData,
}

pub struct ChatListResponse {
    pub status: &'static str,
    pub results: usize,
    pub chats: Vec<ChatResponse>,
}

} // verus!
