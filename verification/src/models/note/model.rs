//! Notes: titled texts filed under a category, published or not.

use crate::models::base::{fields_view, lemma_value_at_concat, lemma_value_at_empty, lemma_value_at_push, opt_text_entry, opt_value_entry, push_field, push_opt, push_opt_text, value_at, DocField, FieldValue, ValueView};
use crate::oid::Oid;
use vstd::prelude::*;

verus! {

#[allow(non_snake_case)]
pub struct NoteModel {
    pub id: Oid,
    pub user: u128,
    pub title: String,
    pub content: String,
    pub category: Option<String>,
    pub published: Option<bool>,
    pub createdAt: i64,
    pub updatedAt: i64,
}

/// A new note. `category` and `published` are left out of its serialized form when absent.
pub struct CreateNoteSchema {
    pub user: u128,
    pub title: String,
    pub content: String,
    pub category: Option<String>,
    pub published: Option<bool>,
}

/// A change to a note: absent fields stay as they are; the owner is always written.
pub struct UpdateNoteSchema {
    pub user: u128,
    pub title: Option<String>,
    pub content: Option<String>,
    pub category: Option<String>,
    pub published: Option<bool>,
}

/// The page of a listing that a client asks for; both count from 1.
pub struct FilterOptions {
    pub page: Option<usize>,
    pub limit: Option<usize>,
}

/// The entries that a note update sets, in order: the owner, then each present field.
pub open spec fn note_update_fields(u: UpdateNoteSchema) -> Seq<(Seq<char>, ValueView)> {
    seq![("user"@, ValueView::User(u.user))]
        + opt_text_entry("title"@, u.title)
        + opt_text_entry("content"@, u.content)
        + opt_text_entry("category"@, u.category)
        + opt_value_entry("published"@, match u.published { Some(b) => Some(FieldValue::Flag(b)), None => None })
}

/// A note update writes each present field of the change under its own name
/// with its own value, always the owner, and nothing for an absent field.
pub proof fn lemma_note_update(u: UpdateNoteSchema)
    ensures
        value_at(note_update_fields(u), "user"@) == Some(ValueView::User(u.user)),
        value_at(note_update_fields(u), "title"@) == match u.title { Some(t) => Some(ValueView::Text(t@)), None => None::<ValueView> },
        value_at(note_update_fields(u), "content"@) == match u.content { Some(c) => Some(ValueView::Text(c@)), None => None::<ValueView> },
        value_at(note_update_fields(u), "category"@) == match u.category { Some(c) => Some(ValueView::Text(c@)), None => None::<ValueView> },
        value_at(note_update_fields(u), "published"@) == match u.published { Some(b) => Some(ValueView::Flag(b)), None => None::<ValueView> },
{
    broadcast use lemma_value_at_concat, lemma_value_at_push, lemma_value_at_empty;
    reveal_strlit("user");
    reveal_strlit("title");
    reveal_strlit("content");
    reveal_strlit("category");
    reveal_strlit("published");
    assert("user"@.len() == 4 && "title"@.len() == 5 && "content"@.len() == 7 && "category"@.len() == 8 && "published"@.len() == 9);
}

impl UpdateNoteSchema {
    /// The entries that the update sets (the serialized change).
    pub fn set_fields(&self) -> (r: Vec<DocField>)
        ensures
            fields_view(r@) == note_update_fields(*self),
    {
        let mut r: Vec<DocField> = Vec::new();
        push_field(&mut r, "user", FieldValue::User(self.user));
        push_opt_text(&mut r, "title", &self.title);
        push_opt_text(&mut r, "content", &self.content);
        push_opt_text(&mut r, "category", &self.category);
        push_opt(&mut r, "published", crate::models::base::opt_flag(self.published));
        assert(fields_view(r@) =~= note_update_fields(*self));
        r
    }
}

} // verus!
