//! What a listing of events fetches.

use crate::models::base::{fields_view, push_field, DocField, FieldValue, ValueView};
use vstd::prelude::*;

verus! {

/// The fields an event listing fetches. Progress is kept in percent.
#[allow(non_snake_case)]
pub struct EventFetchOptions {
    pub id: String,
    pub user: u128,
    pub title: String,
    pub progressRate: u8,
    pub milestone: bool,
    pub start_date: Option<i32>,
    pub end_date: Option<i32>,
    pub due_at: Option<i64>,
    pub createdAt: i64,
    pub updatedAt: i64,
}

impl EventFetchOptions {
    /// The projection a listing asks MongoDB for: each listed field, included.
    pub fn build_projection() -> (r: Vec<DocField>)
        ensures
            fields_view(r@) == seq![("_id"@, ValueView::Int(1)), ("user"@, ValueView::Int(1)), ("title"@, ValueView::Int(1)), ("progressRate"@, ValueView::Int(1)), ("milestone"@, ValueView::Int(1)), ("start_date"@, ValueView::Int(1)), ("end_date"@, ValueView::Int(1)), ("due_at"@, ValueView::Int(1)), ("createdAt"@, ValueView::Int(1)), ("updatedAt"@, ValueView::Int(1))],
    {
        let mut r: Vec<DocField> = Vec::new();
        push_field(&mut r, "_id", FieldValue::Int(1));
        push_field(&mut r, "user", FieldValue::Int(1));
        push_field(&mut r, "title", FieldValue::Int(1));
        push_field(&mut r, "progressRate", FieldValue::Int(1));
        push_field(&mut r, "milestone", FieldValue::Int(1));
        push_field(&mut r, "start_date", FieldValue::Int(1));
        push_field(&mut r, "end_date", FieldValue::Int(1));
        push_field(&mut r, "due_at", FieldValue::Int(1));
        push_field(&mut r, "createdAt", FieldValue::Int(1));
        push_field(&mut r, "updatedAt", FieldValue::Int(1));
        assert(fields_view(r@) =~= seq![("_id"@, ValueView::Int(1)), ("user"@, ValueView::Int(1)), ("title"@, ValueView::Int(1)), ("progressRate"@, ValueView::Int(1)), ("milestone"@, ValueView::Int(1)), ("start_date"@, ValueView::Int(1)), ("end_date"@, ValueView::Int(1)), ("due_at"@, ValueView::Int(1)), ("createdAt"@, ValueView::Int(1)), ("updatedAt"@, ValueView::Int(1))]);
        r
    }
}

/// The page of an event listing, and the days it covers (days from the common era).
pub struct EventFilterOptions {
    pub page: Option<usize>,
    pub limit: Option<usize>,
    pub start_date: Option<i32>,
    pub end_date: Option<i32>,
}

/// A new event. Days count from the common era; `due_at` is in milliseconds since the Unix epoch.
pub struct CreateEventReq {
    pub title: String,
    pub start_date: Option<i32>,
    pub end_date: Option<i32>,
    pub due_at: Option<i64>,
}

} // verus!
