//! A task as a listing answers it: its fields, its property values, and its subtasks.

use crate::domain::task::TaskModel;
use crate::domain::task_prop_v::{copy_prop_values, same_prop_value, PropValueModel};
use crate::oid::hex_lower;
use vstd::prelude::*;

verus! {

#[allow(non_snake_case)]
pub struct TaskFetchRes {
    pub id: String,
    pub user: u128,
    pub title: String,
    pub start_date: Option<i32>,
    pub due_at: Option<i64>,
    pub category_id: String,
    pub prop_values: Vec<PropValueModel>,
    pub subtasks: Vec<TaskFetchRes>,
    pub createdAt: i64,
    pub updatedAt: i64,
}

/// Two lists of property values hold the same contents.
pub open spec fn same_prop_values(a: Seq<PropValueModel>, b: Seq<PropValueModel>) -> bool {
    &&& a.len() == b.len()
    &&& forall|i: int| 0 <= i < a.len() ==> same_prop_value(#[trigger] a[i], b[i])
}

/// Two fetched tasks hold the same contents, subtasks included.
pub open spec fn same_fetch(a: TaskFetchRes, b: TaskFetchRes) -> bool
    decreases a,
{
    &&& a.id@ == b.id@
    &&& a.user == b.user
    &&& a.title@ == b.title@
    &&& a.start_date == b.start_date
    &&& a.due_at == b.due_at
    &&& a.category_id@ == b.category_id@
    &&& same_prop_values(a.prop_values@, b.prop_values@)
    &&& a.createdAt == b.createdAt
    &&& a.updatedAt == b.updatedAt
    &&& a.subtasks@.len() == b.subtasks@.len()
    &&& forall|i: int| 0 <= i < a.subtasks@.len() ==> same_fetch(#[trigger] a.subtasks@[i], b.subtasks@[i])
}

impl TaskFetchRes {
    /// A copy of the fetched task, subtasks included.
    pub fn copy(&self) -> (r: Self)
        ensures
            same_fetch(r, *self),
        decreases self,
    {
        let mut subs: Vec<TaskFetchRes> = Vec::new();
        let mut i: usize = 0;
        while i < self.subtasks.len()
            invariant
                0 <= i <= self.subtasks.len(),
                subs@.len() == i,
                forall|k: int| 0 <= k < i ==> same_fetch(#[trigger] subs@[k], self.subtasks@[k]),
            decreases self.subtasks.len() - i,
        {
            assert(decreases_to!(self => self.subtasks@[i as int]));
            subs.push(self.subtasks[i].copy());
            i = i + 1;
        }
        TaskFetchRes {
            id: self.id.clone(),
            user: self.user,
            title: self.title.clone(),
            start_date: self.start_date,
            due_at: self.due_at,
            category_id: self.category_id.clone(),
            prop_values: copy_prop_values(&self.prop_values),
            subtasks: subs,
            createdAt: self.createdAt,
            updatedAt: self.updatedAt,
        }
    }

    /// What a listing answers of a task: its identifiers as text, its fields,
    /// its property values and subtasks as they are.
    pub fn from_model(task: &TaskModel) -> (r: Self)
        ensures
            r.id@ == hex_lower(task.id.bytes@),
            r.user == task.user,
            r.title@ == task.title@,
            r.start_date == task.start_date,
            r.due_at == task.due_at,
            r.category_id@ == hex_lower(task.category_id.bytes@),
            same_prop_values(r.prop_values@, task.prop_values@),
            r.subtasks@.len() == task.subtasks@.len(),
            forall|i: int| 0 <= i < task.subtasks@.len() ==> same_fetch(#[trigger] r.subtasks@[i], task.subtasks@[i]),
            r.createdAt == task.createdAt,
            r.updatedAt == task.updatedAt,
    {
        let mut subs: Vec<TaskFetchRes> = Vec::new();
        let mut i: usize = 0;
        while i < task.subtasks.len()
            invariant
                0 <= i <= task.subtasks.len(),
                subs@.len() == i,
                forall|k: int| 0 <= k < i ==> same_fetch(#[trigger] subs@[k], task.subtasks@[k]),
            decreases task.subtasks.len() - i,
        {
            subs.push(task.subtasks[i].copy());
            i = i + 1;
        }
        TaskFetchRes {
            id: task.id.to_hex(),
            user: task.user,
            title: task.title.clone(),
            start_date: task.start_date,
            due_at: task.due_at,
            category_id: task.category_id.to_hex(),
            prop_values: copy_prop_values(&task.prop_values),
            subtasks: subs,
            createdAt: task.createdAt,
            updatedAt: task.updatedAt,
        }
    }
}

/// The answer that lists fetched tasks.
pub struct TaskFetchListRes {
    pub status: &'static str,
    pub results: usize,
    pub tasks: Vec<TaskFetchRes>,
}

} // verus!
