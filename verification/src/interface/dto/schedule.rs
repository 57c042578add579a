//! Requests about the weekly schedule.

use crate::domain::schedule_item::Weekday;
use crate::domain::types::ScheduleType;
use crate::oid::Oid;
use vstd::prelude::*;

verus! {

/// A change to a scheduled habit: absent fields stay as they are.
pub struct UpdateScheduledHabitReq {
    pub name: Option<String>,
    pub icon: Option<String>,
}

/// A task put on the schedule.
pub struct CreateScheduledTaskReq {
    pub task_id: Oid,
    pub title: String,
    pub category_id: Oid,
    pub category_color: String,
}

/// A change to a scheduled task: absent fields stay as they are.
pub struct UpdateScheduledTaskReq {
    pub title: Option<String>,
    pub category_id: Option<Oid>,
    pub category_color: Option<String>,
}

/// An event put on the schedule (its day from the common era, its due time in milliseconds since the Unix epoch).
pub struct CreateScheduledEventReq {
    pub event_id: Oid,
    pub title: String,
    pub start_date: Option<i32>,
    pub due_at: Option<i64>,
}

/// A change to a scheduled event: absent fields stay as they are.
pub struct UpdateScheduledEventReq {
    pub title: Option<String>,
    pub start_date: Option<i32>,
    pub due_at: Option<i64>,
}

/// A habit put on the schedule.
pub struct CreateScheduledHabitReq {
    pub habit_id: Oid,
    pub name: String,
    pub icon: String,
}

/// An item placed on a day of the week.
pub struct CreateScheduledAtReq {
    pub item_id: Oid,
    pub item_type: ScheduleType,
    pub weekday: Weekday,
}

/// A change to a placement: times of day in seconds after midnight; absent fields stay as they are.
#[allow(non_snake_case)]
pub struct UpdateScheduledAtReq {
    pub item_type: Option<ScheduleType>,
    pub weekday: Option<Weekday>,
    pub startAt: Option<u32>,
    pub endAt: Option<u32>,
}

} // verus!
