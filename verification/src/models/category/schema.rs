//! What a client sends to create or change a category or a property.

use super::model::{prop_type_name, prop_type_text, status_name, status_text, PropertyType, StatusType};
use crate::models::base::{lemma_value_at_concat, lemma_value_at_empty, lemma_value_at_push, value_at, fields_view, opt_entry, opt_text_entry, push_field, DocField, FieldValue, ValueView};
use crate::text::{clone_texts, texts_view};
use vstd::prelude::*;

verus! {

/// The page of a listing that a client asks for; both count from 1.
pub struct FilterOptions {
    pub page: Option<usize>,
    pub limit: Option<usize>,
}

pub struct CreateCategorySchema {
    pub name: String,
    pub color: String,
}

/// A change to a category: absent fields stay as they are.
pub struct UpdateCategorySchema {
    pub name: Option<String>,
    pub color: Option<String>,
    pub status: Option<StatusType>,
}

/// A change to a property: absent fields stay as they are.
pub struct UpdatePropertySchema {
    pub name: Option<String>,
    pub prop_type: Option<PropertyType>,
    pub options: Option<Vec<String>>,
}

/// The entries that a category update sets: `name`, `color`, `status`, each only when present, in that order.
pub open spec fn category_update_fields(u: UpdateCategorySchema) -> Seq<(Seq<char>, ValueView)> {
    opt_text_entry("name"@, u.name) + opt_text_entry("color"@, u.color)
        + opt_entry("status"@, match u.status { Some(s) => Some(ValueView::Text(status_name(s))), None => None })
}

/// A category update writes each present field of the change under its own
/// name with its own value (the status by its stored name), and nothing for
/// an absent field.
pub proof fn lemma_category_update(u: UpdateCategorySchema)
    ensures
        value_at(category_update_fields(u), "name"@) == match u.name { Some(n) => Some(ValueView::Text(n@)), None => None::<ValueView> },
        value_at(category_update_fields(u), "color"@) == match u.color { Some(c) => Some(ValueView::Text(c@)), None => None::<ValueView> },
        value_at(category_update_fields(u), "status"@) == match u.status { Some(st) => Some(ValueView::Text(status_name(st))), None => None::<ValueView> },
{
    broadcast use lemma_value_at_concat, lemma_value_at_push, lemma_value_at_empty;
    reveal_strlit("name");
    reveal_strlit("color");
    reveal_strlit("status");
    assert("name"@.len() == 4 && "name"@[0] == 'n' && "name"@[1] == 'a');
    assert("color"@.len() == 5 && "color"@[0] == 'c' && "color"@[1] == 'o');
    assert("status"@.len() == 6 && "status"@[0] == 's' && "status"@[1] == 't');
    reveal_with_fuel(value_at, 12);
}

impl UpdateCategorySchema {
    /// The entries that the update sets: `name`, `color`, `status`, each only when present, in that order.
    pub fn set_fields(&self) -> (r: Vec<DocField>)
        ensures
            fields_view(r@) == category_update_fields(*self),
    {
        let mut r: Vec<DocField> = Vec::new();
        if let Some(n) = &self.name {
            push_field(&mut r, "name", FieldValue::Text(n.clone()));
        }
        if let Some(c) = &self.color {
            push_field(&mut r, "color", FieldValue::Text(c.clone()));
        }
        if let Some(s) = self.status {
            push_field(&mut r, "status", FieldValue::Text(status_text(s)));
        }
        assert(fields_view(r@) =~= opt_text_entry("name"@, self.name) + opt_text_entry("color"@, self.color)
                + opt_entry("status"@, match self.status { Some(s) => Some(ValueView::Text(status_name(s))), None => None }));
        r
    }
}

/// The entries that a property update sets: `name`, `prop_type`, `options`, each only when present, in that order.
pub open spec fn property_update_fields(u: UpdatePropertySchema) -> Seq<(Seq<char>, ValueView)> {
    opt_text_entry("name"@, u.name)
        + opt_entry("prop_type"@, match u.prop_type { Some(p) => Some(ValueView::Text(prop_type_name(p))), None => None })
        + opt_entry("options"@, match u.options { Some(o) => Some(ValueView::Texts(texts_view(o@))), None => None })
}

impl UpdatePropertySchema {
    /// The entries that the update sets: `name`, `prop_type`, `options`, each only when present, in that order.
    pub fn set_fields(&self) -> (r: Vec<DocField>)
        ensures
            fields_view(r@) == property_update_fields(*self),
    {
        let mut r: Vec<DocField> = Vec::new();
        if let Some(n) = &self.name {
            push_field(&mut r, "name", FieldValue::Text(n.clone()));
        }
        if let Some(p) = self.prop_type {
            push_field(&mut r, "prop_type", FieldValue::Text(prop_type_text(p)));
        }
        if let Some(o) = &self.options {
            push_field(&mut r, "options", FieldValue::Texts(clone_texts(o)));
        }
        assert(fields_view(r@) =~= opt_text_entry("name"@, self.name)
                + opt_entry("prop_type"@, match self.prop_type { Some(p) => Some(ValueView::Text(prop_type_name(p))), None => None })
                + opt_entry("options"@, match self.options { Some(o) => Some(ValueView::Texts(texts_view(o@))), None => None }));
        r
    }
}

} // verus!
