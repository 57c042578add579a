//! What a listing of notes fetches.

use crate::models::base::{fields_view, push_field, DocField, FieldValue, ValueView};
use crate::domain::task_prop_v::PropValueModel;
use vstd::prelude::*;

verus! {

/// The fields a note listing fetches.
#[allow(non_snake_case)]
pub struct NoteFetchOptions {
    pub id: String,
    pub user: u128,
    pub title: String,
    pub category_id: String,
    pub prop_values: Vec<PropValueModel>,
    pub parent_id: String,
    pub createdAt: i64,
    pub updatedAt: i64,
}

impl NoteFetchOptions {
    /// The projection a listing asks MongoDB for: each listed field, included.
    pub fn build_projection() -> (r: Vec<DocField>)
        ensures
            fields_view(r@) == seq![("_id"@, ValueView::Int(1)), ("user"@, ValueView::Int(1)), ("title"@, ValueView::Int(1)), ("category_id"@, ValueView::Int(1)), ("prop_values"@, ValueView::Int(1)), ("pages"@, ValueView::Int(1)), ("parent_id"@, ValueView::Int(1)), ("createdAt"@, ValueView::Int(1)), ("updatedAt"@, ValueView::Int(1))],
    {
        let mut r: Vec<DocField> = Vec::new();
        push_field(&mut r, "_id", FieldValue::Int(1));
        push_field(&mut r, "user", FieldValue::Int(1));
        push_field(&mut r, "title", FieldValue::Int(1));
        push_field(&mut r, "category_id", FieldValue::Int(1));
        push_field(&mut r, "prop_values", FieldValue::Int(1));
        push_field(&mut r, "pages", FieldValue::Int(1));
        push_field(&mut r, "parent_id", FieldValue::Int(1));
        push_field(&mut r, "createdAt", FieldValue::Int(1));
        push_field(&mut r, "updatedAt", FieldValue::Int(1));
        assert(fields_view(r@) =~= seq![("_id"@, ValueView::Int(1)), ("user"@, ValueView::Int(1)), ("title"@, ValueView::Int(1)), ("category_id"@, ValueView::Int(1)), ("prop_values"@, ValueView::Int(1)), ("pages"@, ValueView::Int(1)), ("parent_id"@, ValueView::Int(1)), ("createdAt"@, ValueView::Int(1)), ("updatedAt"@, ValueView::Int(1))]);
        r
    }
}

} // verus!
