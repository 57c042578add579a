//! The rules of the chat-message service that lie between its database calls.
//! Messages live in the `chat_msgs` array of their event, note or task.

use super::model::{msg_type_name, msg_type_text, ChatModel, ChatType};
use super::schema::UpdateMsgSchema;
use crate::clock::utc_now_millis;
use crate::models::base::{lemma_value_at_concat, lemma_value_at_empty, lemma_value_at_push, value_at, fields_view, opt_entry, push_field, DocField, FieldValue, ValueView};
use vstd::prelude::*;

verus! {

/// The entries of the `$set` that changes one message at time `now`:
/// `updatedAt` first, then each present field of the change under the path
/// that selects the message (`chat_msgs.$[msg].<field>`).
pub open spec fn msg_update_fields(u: UpdateMsgSchema, now: i64) -> Seq<(Seq<char>, ValueView)> {
    seq![("updatedAt"@, ValueView::Time(now))]
        + opt_entry("chat_msgs.$[msg].msg_type"@, match u.msg_type { Some(t) => Some(ValueView::Text(msg_type_name(t))), None => None })
        + opt_entry("chat_msgs.$[msg].content"@, match u.content { Some(c) => Some(ValueView::Text(c@)), None => None })
        + opt_entry("chat_msgs.$[msg].booked"@, match u.booked { Some(b) => Some(ValueView::Flag(b)), None => None })
}

/// Changing a message writes `updatedAt` as `now` and, under the path of
/// each field of the selected message, the value the change carries for it
/// (the type by its stored name); a field the change leaves out is not written.
pub proof fn lemma_msg_update(u: UpdateMsgSchema, now: i64)
    ensures
        value_at(msg_update_fields(u, now), "updatedAt"@) == Some(ValueView::Time(now)),
        value_at(msg_update_fields(u, now), "chat_msgs.$[msg].msg_type"@) == match u.msg_type { Some(t) => Some(ValueView::Text(msg_type_name(t))), None => None::<ValueView> },
        value_at(msg_update_fields(u, now), "chat_msgs.$[msg].content"@) == match u.content { Some(c) => Some(ValueView::Text(c@)), None => None::<ValueView> },
        value_at(msg_update_fields(u, now), "chat_msgs.$[msg].booked"@) == match u.booked { Some(b) => Some(ValueView::Flag(b)), None => None::<ValueView> },
{
    broadcast use lemma_value_at_concat, lemma_value_at_push, lemma_value_at_empty;
    reveal_strlit("updatedAt");
    reveal_strlit("chat_msgs.$[msg].msg_type");
    reveal_strlit("chat_msgs.$[msg].content");
    reveal_strlit("chat_msgs.$[msg].booked");
    assert("updatedAt"@.len() == 9 && "updatedAt"@[0] == 'u' && "updatedAt"@[1] == 'p');
    assert("chat_msgs.$[msg].msg_type"@.len() == 25 && "chat_msgs.$[msg].msg_type"@[0] == 'c' && "chat_msgs.$[msg].msg_type"@[1] == 'h');
    assert("chat_msgs.$[msg].content"@.len() == 24 && "chat_msgs.$[msg].content"@[0] == 'c' && "chat_msgs.$[msg].content"@[1] == 'h');
    assert("chat_msgs.$[msg].booked"@.len() == 23 && "chat_msgs.$[msg].booked"@[0] == 'c' && "chat_msgs.$[msg].booked"@[1] == 'h');
    reveal_with_fuel(value_at, 12);
}

pub struct ChatMsgBMC;

impl ChatMsgBMC {
    /// The `$set` entries that change one message, as of time `now`.
    pub fn update_msg_fields_at(new_msg: &UpdateMsgSchema, now: i64) -> (r: Vec<DocField>)
        ensures
            fields_view(r@) == msg_update_fields(*new_msg, now),
    {
        let mut r: Vec<DocField> = Vec::new();
        push_field(&mut r, "updatedAt", FieldValue::Time(now));
        if let Some(t) = new_msg.msg_type {
            push_field(&mut r, "chat_msgs.$[msg].msg_type", FieldValue::Text(msg_type_text(t)));
        }
        if let Some(c) = &new_msg.content {
            push_field(&mut r, "chat_msgs.$[msg].content", FieldValue::Text(c.clone()));
        }
        if let Some(b) = new_msg.booked {
            push_field(&mut r, "chat_msgs.$[msg].booked", FieldValue::Flag(b));
        }
        assert(fields_view(r@) =~= msg_update_fields(*new_msg, now));
        r
    }

    /// The `$set` entries that change one message, as of now.
    pub fn update_msg_fields(new_msg: &UpdateMsgSchema) -> (r: Vec<DocField>)
        ensures
            exists|now: i64| fields_view(r@) == msg_update_fields(*new_msg, now),
    {
        Self::update_msg_fields_at(new_msg, utc_now_millis())
    }

    /// The chat that is attached to a message: a question, with no messages yet.
    pub fn new_ask_chat() -> (c: ChatModel)
        ensures
            c.src_type == ChatType::Ask,
            c.msgs is None,
    {
        ChatModel { src_type: ChatType::Ask, msgs: None }
    }
}

} // verus!
