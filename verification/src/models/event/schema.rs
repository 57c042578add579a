//! What a client sends to create or change an event.

use crate::models::chat::model::{chat_type_name, chat_type_text, ChatType};
use crate::models::base::{lemma_value_at_concat, lemma_value_at_empty, lemma_value_at_push, value_at, fields_view, opt_date, opt_flag, opt_instant, opt_text_entry, opt_value_entry, push_opt, push_opt_text, DocField, FieldValue, ValueView};
use vstd::prelude::*;

verus! {

/// A new event; absent fields are left out of the stored document.
pub struct CreateEventSchema {
    pub title: String,
    pub start_date: Option<i32>,
    pub due_at: Option<i64>,
    pub location: Option<String>,
}

/// A change to an event: absent fields stay as they are.
pub struct UpdateEventSchema {
    pub title: Option<String>,
    pub complete: Option<bool>,
    pub start_date: Option<i32>,
    pub due_at: Option<i64>,
    pub location: Option<String>,
    pub chat_type: Option<ChatType>,
}

/// The entries that an event update sets, each only when present, in the order of the fields.
pub open spec fn event_update_fields(u: UpdateEventSchema) -> Seq<(Seq<char>, crate::models::base::ValueView)> {
    opt_text_entry("title"@, u.title)
        + opt_value_entry("complete"@, match u.complete { Some(b) => Some(FieldValue::Flag(b)), None => None })
        + opt_value_entry("start_date"@, match u.start_date { Some(d) => Some(FieldValue::Date(d)), None => None })
        + opt_value_entry("due_at"@, match u.due_at { Some(t) => Some(FieldValue::Instant(t)), None => None })
        + opt_text_entry("location"@, u.location)
        + match u.chat_type { Some(c) => seq![("chat_type"@, crate::models::base::ValueView::Text(chat_type_name(c)))], None => seq![] }
}

/// An event update writes each present field of the change under its own
/// name with its own value (the chat type by its stored name), and nothing
/// for an absent field.
pub proof fn lemma_event_update(u: UpdateEventSchema)
    ensures
        value_at(event_update_fields(u), "title"@) == match u.title { Some(t) => Some(ValueView::Text(t@)), None => None::<ValueView> },
        value_at(event_update_fields(u), "complete"@) == match u.complete { Some(b) => Some(ValueView::Flag(b)), None => None::<ValueView> },
        value_at(event_update_fields(u), "start_date"@) == match u.start_date { Some(d) => Some(ValueView::Date(d)), None => None::<ValueView> },
        value_at(event_update_fields(u), "due_at"@) == match u.due_at { Some(t) => Some(ValueView::Instant(t)), None => None::<ValueView> },
        value_at(event_update_fields(u), "location"@) == match u.location { Some(l) => Some(ValueView::Text(l@)), None => None::<ValueView> },
        value_at(event_update_fields(u), "chat_type"@) == match u.chat_type { Some(c) => Some(ValueView::Text(chat_type_name(c))), None => None::<ValueView> },
{
    broadcast use lemma_value_at_concat, lemma_value_at_push, lemma_value_at_empty;
    reveal_strlit("title");
    reveal_strlit("complete");
    reveal_strlit("start_date");
    reveal_strlit("due_at");
    reveal_strlit("location");
    reveal_strlit("chat_type");
    assert("title"@.len() == 5 && "title"@[0] == 't' && "title"@[1] == 'i');
    assert("complete"@.len() == 8 && "complete"@[0] == 'c' && "complete"@[1] == 'o');
    assert("start_date"@.len() == 10 && "start_date"@[0] == 's' && "start_date"@[1] == 't');
    assert("due_at"@.len() == 6 && "due_at"@[0] == 'd' && "due_at"@[1] == 'u');
    assert("location"@.len() == 8 && "location"@[0] == 'l' && "location"@[1] == 'o');
    assert("chat_type"@.len() == 9 && "chat_type"@[0] == 'c' && "chat_type"@[1] == 'h');
}

impl UpdateEventSchema {
    pub fn set_fields(&self) -> (r: Vec<DocField>)
        ensures
            fields_view(r@) == event_update_fields(*self),
    {
        let mut r: Vec<DocField> = Vec::new();
        push_opt_text(&mut r, "title", &self.title);
        push_opt(&mut r, "complete", opt_flag(self.complete));
        push_opt(&mut r, "start_date", opt_date(self.start_date));
        push_opt(&mut r, "due_at", opt_instant(self.due_at));
        push_opt_text(&mut r, "location", &self.location);
        let ct = match self.chat_type {
            Some(c) => Some(FieldValue::Text(chat_type_text(c))),
            None => None,
        };
        push_opt(&mut r, "chat_type", ct);
        assert(fields_view(r@) =~= event_update_fields(*self));
        r
    }
}

} // verus!
