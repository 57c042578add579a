//! Chats attached to events, notes and tasks, and the messages in them.

use crate::oid::Oid;
use vstd::prelude::*;

verus! {

pub struct ChatModel {
    pub src_type: ChatType,
    pub msgs: Option<Vec<MsgModel>>,
}

#[derive(PartialEq, Eq, Structural, Clone, Copy)]
pub enum ChatType {
    Ask,
    Event,
    Task,
}

pub struct MsgModel {
    pub id: Oid,
    pub msg_type: MsgType,
    pub content: String,
    /// Milliseconds since the Unix epoch.
    pub created_at: i64,
    pub booked: bool,
    pub chat: Option<Vec<ChatModel>>,
}

#[derive(PartialEq, Eq, Structural, Clone, Copy)]
pub enum MsgType {
    Text,
    Ask,
    Answer,
    Image,
    File,
    Link,
    Video,
    Audio,
    Location,
}

/// The name under which a chat type is stored.
pub open spec fn chat_type_name(t: ChatType) -> Seq<char> {
    match t {
        ChatType::Ask => "Ask"@,
        ChatType::Event => "Event"@,
        ChatType::Task => "Task"@,
    }
}

/// Different chat types are stored under different names.
pub proof fn lemma_chat_type_names_distinct(a: ChatType, b: ChatType)
    ensures
        a != b ==> chat_type_name(a) != chat_type_name(b),
{
    reveal_strlit("Ask");
    reveal_strlit("Event");
    reveal_strlit("Task");
    assert("Ask"@.len() == 3 && "Ask"@[0] == 'A' && "Ask"@[1] == 's');
    assert("Event"@.len() == 5 && "Event"@[0] == 'E' && "Event"@[1] == 'v');
    assert("Task"@.len() == 4 && "Task"@[0] == 'T' && "Task"@[1] == 'a');
}

pub fn chat_type_text(t: ChatType) -> (r: String)
    ensures
        r@ == chat_type_name(t),
{
    match t {
        ChatType::Ask => String::from_str("Ask"),
        ChatType::Event => String::from_str("Event"),
        ChatType::Task => String::from_str("Task"),
    }
}

/// The name under which a message type is stored.
pub open spec fn msg_type_name(t: MsgType) -> Seq<char> {
    match t {
        MsgType::Text => "Text"@,
        MsgType::Ask => "Ask"@,
        MsgType::Answer => "Answer"@,
        MsgType::Image => "Image"@,
        MsgType::File => "File"@,
        MsgType::Link => "Link"@,
        MsgType::Video => "Video"@,
        MsgType::Audio => "Audio"@,
        MsgType::Location => "Location"@,
    }
}

/// Different message types are stored under different names.
pub proof fn lemma_msg_type_names_distinct(a: MsgType, b: MsgType)
    ensures
        a != b ==> msg_type_name(a) != msg_type_name(b),
{
    reveal_strlit("Text");
    reveal_strlit("Ask");
    reveal_strlit("Answer");
    reveal_strlit("Image");
    reveal_strlit("File");
    reveal_strlit("Link");
    reveal_strlit("Video");
    reveal_strlit("Audio");
    reveal_strlit("Location");
    assert("Text"@.len() == 4 && "Text"@[0] == 'T' && "Text"@[1] == 'e');
    assert("Ask"@.len() == 3 && "Ask"@[0] == 'A' && "Ask"@[1] == 's');
    assert("Answer"@.len() == 6 && "Answer"@[0] == 'A' && "Answer"@[1] == 'n');
    assert("Image"@.len() == 5 && "Image"@[0] == 'I' && "Image"@[1] == 'm');
    assert("File"@.len() == 4 && "File"@[0] == 'F' && "File"@[1] == 'i');
    assert("Link"@.len() == 4 && "Link"@[0] == 'L' && "Link"@[1] == 'i');
    assert("Video"@.len() == 5 && "Video"@[0] == 'V' && "Video"@[1] == 'i');
    assert("Audio"@.len() == 5 && "Audio"@[0] == 'A' && "Audio"@[1] == 'u');
    assert("Location"@.len() == 8 && "Location"@[0] == 'L' && "Location"@[1] == 'o');
}

pub fn msg_type_text(t: MsgType) -> (r: String)
    ensures
        r@ == msg_type_name(t),
{
    match t {
        MsgType::Text => String::from_str("Text"),
        MsgType::Ask => String::from_str("Ask"),
        MsgType::Answer => String::from_str("Answer"),
        MsgType::Image => String::from_str("Image"),
        MsgType::File => String::from_str("File"),
        MsgType::Link => String::from_str("Link"),
        MsgType::Video => String::from_str("Video"),
        MsgType::Audio => String::from_str("Audio"),
        MsgType::Location => String::from_str("Location"),
    }
}

/// Two messages hold the same contents, their chats included.
pub open spec fn same_msg(a: MsgModel, b: MsgModel) -> bool
    decreases a,
{
    &&& a.id.bytes@ == b.id.bytes@
    &&& a.msg_type == b.msg_type
    &&& a.content@ == b.content@
    &&& a.created_at == b.created_at
    &&& a.booked == b.booked
    &&& match (a.chat, b.chat) {
        (Some(x), Some(y)) => x@.len() == y@.len() && forall|i: int| 0 <= i < x@.len() ==> same_chat(#[trigger] x@[i], y@[i]),
        (None, None) => true,
        _ => false,
    }
}

/// Two chats hold the same contents, their messages included.
pub open spec fn same_chat(a: ChatModel, b: ChatModel) -> bool
    decreases a,
{
    &&& a.src_type == b.src_type
    &&& match (a.msgs, b.msgs) {
        (Some(x), Some(y)) => x@.len() == y@.len() && forall|i: int| 0 <= i < x@.len() ==> same_msg(#[trigger] x@[i], y@[i]),
        (None, None) => true,
        _ => false,
    }
}

/// Two optional lists of messages hold the same contents.
pub open spec fn same_msgs(a: Option<Vec<MsgModel>>, b: Option<Vec<MsgModel>>) -> bool {
    match (a, b) {
        (Some(x), Some(y)) => x@.len() == y@.len() && forall|i: int| 0 <= i < x@.len() ==> same_msg(#[trigger] x@[i], y@[i]),
        (None, None) => true,
        _ => false,
    }
}

impl MsgModel {
    /// A copy of the message, its chats included.
    pub fn copy(&self) -> (r: Self)
        ensures
            same_msg(r, *self),
        decreases self,
    {
        let chat = match &self.chat {
            Some(chats) => {
                let mut out: Vec<ChatModel> = Vec::new();
                let mut i: usize = 0;
                while i < chats.len()
                    invariant
                        0 <= i <= chats.len(),
                        self.chat == Some(*chats),
                        out@.len() == i,
                        forall|k: int| 0 <= k < i ==> same_chat(#[trigger] out@[k], chats@[k]),
                    decreases chats.len() - i,
                {
                    assert(decreases_to!(self => self.chat));
                    assert(decreases_to!(self.chat => self.chat->0));
                    assert(decreases_to!(self.chat->0 => self.chat->0@));
                    assert(decreases_to!(self.chat->0@ => self.chat->0@[i as int]));
                    assert(decreases_to!(self => chats@[i as int]));
                    out.push(chats[i].copy());
                    i = i + 1;
                }
                Some(out)
            },
            None => None,
        };
        MsgModel {
            id: self.id.copy(),
            msg_type: self.msg_type,
            content: self.content.clone(),
            created_at: self.created_at,
            booked: self.booked,
            chat,
        }
    }
}

impl ChatModel {
    /// A copy of the chat, its messages included.
    pub fn copy(&self) -> (r: Self)
        ensures
            same_chat(r, *self),
        decreases self,
    {
        let msgs = match &self.msgs {
            Some(ms) => {
                let mut out: Vec<MsgModel> = Vec::new();
                let mut i: usize = 0;
                while i < ms.len()
                    invariant
                        0 <= i <= ms.len(),
                        self.msgs == Some(*ms),
                        out@.len() == i,
                        forall|k: int| 0 <= k < i ==> same_msg(#[trigger] out@[k], ms@[k]),
                    decreases ms.len() - i,
                {
                    assert(decreases_to!(self => self.msgs));
                    assert(decreases_to!(self.msgs => self.msgs->0));
                    assert(decreases_to!(self.msgs->0 => self.msgs->0@));
                    assert(decreases_to!(self.msgs->0@ => self.msgs->0@[i as int]));
                    assert(decreases_to!(self => ms@[i as int]));
                    out.push(ms[i].copy());
                    i = i + 1;
                }
                Some(out)
            },
            None => None,
        };
        ChatModel { src_type: self.src_type, msgs }
    }
}

/// Copies an optional list of messages, their chats included.
pub fn copy_msgs(m: &Option<Vec<MsgModel>>) -> (r: Option<Vec<MsgModel>>)
    ensures
        same_msgs(r, *m),
{
    match m {
        Some(ms) => {
            let mut out: Vec<MsgModel> = Vec::new();
            let mut i: usize = 0;
            while i < ms.len()
                invariant
                    0 <= i <= ms.len(),
                    out@.len() == i,
                    forall|k: int| 0 <= k < i ==> same_msg(#[trigger] out@[k], ms@[k]),
                decreases ms.len() - i,
            {
                out.push(ms[i].copy());
                i = i + 1;
            }
            Some(out)
        },
        None => None,
    }
}

/// The messages of an optional list, none when there is no list.
pub open spec fn msgs_or_empty(m: Option<Vec<MsgModel>>) -> Seq<MsgModel> {
    match m {
        Some(v) => v@,
        None => Seq::empty(),
    }
}

/// The messages of an optional list; no list reads as an empty one.
pub fn msgs_or_default(m: Option<Vec<MsgModel>>) -> (r: Vec<MsgModel>)
    ensures
        r@ == msgs_or_empty(m),
{
    match m {
        Some(v) => v,
        None => Vec::new(),
    }
}

} // verus!
