//! A task as stored: its fields, chat, property values and subtasks.

use super::task_prop_v::PropValueModel;
use crate::interface::te::TaskFetchRes;
use crate::models::chat::model::{ChatType, MsgModel};
use crate::oid::Oid;
use vstd::prelude::*;

verus! {

#[allow(non_snake_case)]
pub struct TaskModel {
    pub id: Oid,
    pub user: u128,
    pub title: String,
    pub parent_id: Option<Oid>,
    pub progress_rate: u8,
    pub milestone: bool,
    pub chat_type: Option<ChatType>,
    pub chat_msgs: Option<Vec<MsgModel>>,
    /// Days from the common era (day 1 is 0001-01-01).
    pub start_date: Option<i32>,
    pub end_date: Option<i32>,
    /// Milliseconds since the Unix epoch.
    pub due_at: Option<i64>,
    pub category_id: Oid,
    pub prop_values: Vec<PropValueModel>,
    pub subtasks: Vec<TaskFetchRes>,
    pub createdAt: i64,
    pub updatedAt: i64,
}

} // verus!
