//! What a client sends to change chats and messages.

use super::model::{ChatType, MsgType};
use vstd::prelude::*;

verus! {

pub struct UpdateChatSchema {
    pub src_type: Option<ChatType>,
}

pub struct FilterChatSchema {
    pub src_item_type: Option<ChatType>,
}

pub struct CreateMsgSchema {
    pub msg_type: MsgType,
    pub content: String,
    pub booked: bool,
}

/// A change to a message: absent fields stay as they are.
pub struct UpdateMsgSchema {
    pub msg_type: Option<MsgType>,
    pub content: Option<String>,
    pub booked: Option<bool>,
}

pub struct FilterMsgSchema {
    pub src_chat_type: Option<ChatType>,
}

} // verus!
