//! What the task service answers.

use crate::domain::task::TaskModel;
use crate::models::chat::model::{copy_msgs, same_msgs, ChatType, MsgModel};
use crate::oid::{hex_lower, Oid};
use crate::models::base::{fields_view, push_field, DocField, FieldValue, ValueView};
use vstd::prelude::*;

verus! {

#[allow(non_snake_case)]
pub struct TaskRes {
    pub id: String,
    pub user: u128,
    pub title: String,
    pub parent_id: Option<String>,
    pub progress_rate: u8,
    pub milestone: bool,
    pub chat_type: Option<ChatType>,
    pub chat_msgs: Option<Vec<MsgModel>>,
    /// Days from the common era (day 1 is 0001-01-01).
    pub start_date: Option<i32>,
    pub end_date: Option<i32>,
    /// Milliseconds since the Unix epoch.
    pub due_at: Option<i64>,
    pub createdAt: i64,
    pub updatedAt: i64,
}

/// The text form of an optional identifier.
pub open spec fn opt_hex(o: Option<Oid>) -> Option<Seq<char>> {
    match o {
        Some(x) => Some(hex_lower(x.bytes@)),
        None => None,
    }
}

impl TaskRes {
    /// What the service answers of a task: identifiers as text, its fields, and a copy of its chat.
    pub fn from_model(task: &TaskModel) -> (r: Self)
        ensures
            r.id@ == hex_lower(task.id.bytes@),
            r.user == task.user,
            r.title@ == task.title@,
            crate::text::opt_text_view(r.parent_id) == opt_hex(task.parent_id),
            r.start_date == task.start_date,
            r.due_at == task.due_at,
            r.chat_type == task.chat_type,
            same_msgs(r.chat_msgs, task.chat_msgs),
            r.createdAt == task.createdAt,
            r.updatedAt == task.updatedAt,
            r.progress_rate == task.progress_rate,
            r.milestone == task.milestone,
            r.end_date == task.end_date,
    {
        let parent_id = match &task.parent_id {
            Some(id) => Some(id.to_hex()),
            None => None,
        };
        TaskRes {
            id: task.id.to_hex(),
            user: task.user,
            title: task.title.clone(),
            parent_id,
            start_date: task.start_date,
            due_at: task.due_at,
            chat_type: task.chat_type,
            chat_msgs: copy_msgs(&task.chat_msgs),
            createdAt: task.createdAt,
            updatedAt: task.updatedAt,
            progress_rate: task.progress_rate,
            milestone: task.milestone,
            end_date: task.end_date,
        }
    }
}

pub struct TaskData {
    pub task: TaskRes,
}

pub struct SingleTaskRes {
    pub status: &'static str,
    pub data: TaskData,
}

pub struct TaskListRes {
    pub status: &'static str,
    pub results: usize,
    pub tasks: Vec<TaskRes>,
}

/// The fields a task listing fetches.
#[allow(non_snake_case)]
pub struct TaskFetchOptions {
    pub id: String,
    pub user: u128,
    pub title: String,
    pub parent_id: Option<String>,
    pub progress_rate: u8,
    pub milestone: bool,
    pub start_date: Option<i32>,
    pub end_date: Option<i32>,
    pub due_at: Option<i64>,
    pub createdAt: i64,
    pub updatedAt: i64,
}

impl TaskFetchOptions {
    /// The projection a listing asks MongoDB for: each listed field, included.
    pub fn build_projection() -> (r: Vec<DocField>)
        ensures
            fields_view(r@) == seq![("_id"@, ValueView::Int(1)), ("user"@, ValueView::Int(1)), ("title"@, ValueView::Int(1)), ("parent_id"@, ValueView::Int(1)), ("progress_rate"@, ValueView::Int(1)), ("milestone"@, ValueView::Int(1)), ("start_date"@, ValueView::Int(1)), ("end_date"@, ValueView::Int(1)), ("due_at"@, ValueView::Int(1)), ("createdAt"@, ValueView::Int(1)), ("updatedAt"@, ValueView::Int(1))],
    {
        let mut r: Vec<DocField> = Vec::new();
        push_field(&mut r, "_id", FieldValue::Int(1));
        push_field(&mut r, "user", FieldValue::Int(1));
        push_field(&mut r, "title", FieldValue::Int(1));
        push_field(&mut r, "parent_id", FieldValue::Int(1));
        push_field(&mut r, "progress_rate", FieldValue::Int(1));
        push_field(&mut r, "milestone", FieldValue::Int(1));
        push_field(&mut r, "start_date", FieldValue::Int(1));
        push_field(&mut r, "end_date", FieldValue::Int(1));
        push_field(&mut r, "due_at", FieldValue::Int(1));
        push_field(&mut r, "createdAt", FieldValue::Int(1));
        push_field(&mut r, "updatedAt", FieldValue::Int(1));
        assert(fields_view(r@) =~= seq![("_id"@, ValueView::Int(1)), ("user"@, ValueView::Int(1)), ("title"@, ValueView::Int(1)), ("parent_id"@, ValueView::Int(1)), ("progress_rate"@, ValueView::Int(1)), ("milestone"@, ValueView::Int(1)), ("start_date"@, ValueView::Int(1)), ("end_date"@, ValueView::Int(1)), ("due_at"@, ValueView::Int(1)), ("createdAt"@, ValueView::Int(1)), ("updatedAt"@, ValueView::Int(1))]);
        r
    }
}

/// The page of a task listing, and the days it covers (days from the common era).
pub struct TaskFilterOptions {
    pub page: Option<usize>,
    pub limit: Option<usize>,
    pub start_date: Option<i32>,
    pub end_date: Option<i32>,
}

/// A new task. Days count from the common era; `due_at` is in milliseconds since the Unix epoch.
pub struct CreateTaskReq {
    pub title: String,
    pub parent_id: Option<String>,
    pub start_date: Option<i32>,
    pub end_date: Option<i32>,
    pub due_at: Option<i64>,
}

/// A change to a task: absent fields stay as they are.
pub struct UpdateTaskReq {
    pub title: Option<String>,
    pub milestone: Option<bool>,
    pub parent_id: Option<String>,
    pub start_date: Option<i32>,
    pub end_date: Option<i32>,
    pub due_at: Option<i64>,
    pub progress_rate: Option<u8>,
    pub chat_type: Option<ChatType>,
}

} // verus!
