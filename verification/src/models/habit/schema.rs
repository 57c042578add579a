//! What a client sends to create or change a habit.

use crate::models::base::{lemma_value_at_concat, lemma_value_at_empty, lemma_value_at_push, value_at, fields_view, opt_text_entry, push_opt, push_opt_text, DocField, FieldValue, ValueView};
use crate::models::category::model::{status_name, status_text, StatusType};
use vstd::prelude::*;

verus! {

pub struct CreateHabitSchema {
    pub name: String,
    pub icon: String,
}

/// A change to a habit: absent fields stay as they are.
pub struct UpdateHabitSchema {
    pub name: Option<String>,
    pub icon: Option<String>,
    pub status: Option<StatusType>,
}

/// The page of a listing that a client asks for; both count from 1.
pub struct FilterOptions {
    pub page: Option<usize>,
    pub limit: Option<usize>,
}

pub open spec fn habit_update_fields(u: UpdateHabitSchema) -> Seq<(Seq<char>, ValueView)> {
    opt_text_entry("name"@, u.name) + opt_text_entry("icon"@, u.icon)
        + match u.status { Some(s) => seq![("status"@, ValueView::Text(status_name(s)))], None => seq![] }
}

/// A habit update writes each present field of the change under its own
/// name with its own value (the status by its stored name), and nothing for
/// an absent field.
pub proof fn lemma_habit_update(u: UpdateHabitSchema)
    ensures
        value_at(habit_update_fields(u), "name"@) == match u.name { Some(n) => Some(ValueView::Text(n@)), None => None::<ValueView> },
        value_at(habit_update_fields(u), "icon"@) == match u.icon { Some(i) => Some(ValueView::Text(i@)), None => None::<ValueView> },
        value_at(habit_update_fields(u), "status"@) == match u.status { Some(st) => Some(ValueView::Text(status_name(st))), None => None::<ValueView> },
{
    broadcast use lemma_value_at_concat, lemma_value_at_push, lemma_value_at_empty;
    reveal_strlit("name");
    reveal_strlit("icon");
    reveal_strlit("status");
    assert("name"@.len() == 4 && "name"@[0] == 'n' && "name"@[1] == 'a');
    assert("icon"@.len() == 4 && "icon"@[0] == 'i' && "icon"@[1] == 'c');
    assert("status"@.len() == 6 && "status"@[0] == 's' && "status"@[1] == 't');
    reveal_with_fuel(value_at, 12);
}

impl UpdateHabitSchema {
    /// The entries that the update sets: `name`, `icon`, `status`, each only when present, in that order.
    pub fn set_fields(&self) -> (r: Vec<DocField>)
        ensures
            fields_view(r@) == habit_update_fields(*self),
    {
        let mut r: Vec<DocField> = Vec::new();
        push_opt_text(&mut r, "name", &self.name);
        push_opt_text(&mut r, "icon", &self.icon);
        let st = match self.status {
            Some(s) => Some(FieldValue::Text(status_text(s))),
            None => None,
        };
        push_opt(&mut r, "status", st);
        assert(fields_view(r@) =~= habit_update_fields(*self));
        r
    }
}

} // verus!
