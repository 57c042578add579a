//! Requests about chats and their messages.

use crate::models::chat::model::{ChatType, MsgType};
use vstd::prelude::*;

verus! {

/// A change to a chat's source type.
pub struct UpdateChatReq {
    pub src_type: Option<ChatType>,
}

/// A search among chats by the kind of item they belong to.
pub struct FilterChatReq {
    pub src_item_type: Option<ChatType>,
}

/// A new message.
pub struct CreateMsgReq {
    pub msg_type: MsgType,
    pub content: String,
    pub booked: bool,
}

/// A change to a message: absent fields stay as they are.
pub struct UpdateMsgReq {
    pub msg_type: Option<MsgType>,
    pub content: Option<String>,
    pub booked: Option<bool>,
}

/// A search among messages by the type of their chat.
pub struct FilterMsgReq {
    pub src_chat_type: Option<ChatType>,
}

} // verus!
