//! The items of one day: tasks, events and habits done or not, and focus-timer results.

use crate::oid::Oid;
use vstd::prelude::*;

verus! {

#[allow(non_snake_case)]
pub struct DailyTaskModel {
    pub task_id: Oid,
    pub title: String,
    pub done: bool,
    /// Milliseconds since the Unix epoch.
    pub doneAt: Option<i64>,
}

#[allow(non_snake_case)]
pub struct DailyEventModel {
    pub event_id: Oid,
    pub title: String,
    pub done: bool,
    pub doneAt: Option<i64>,
}

#[allow(non_snake_case)]
pub struct DailyHabitModel {
    pub habit_id: Oid,
    pub icon: String,
    pub name: String,
    pub done: bool,
    pub doneAt: Option<i64>,
}

#[allow(non_snake_case)]
pub struct TimerResultModel {
    pub category_id: Oid,
    pub category_color: String,
    pub startAt: i64,
    pub endAt: i64,
    pub focus_time: String,
}

} // verus!
