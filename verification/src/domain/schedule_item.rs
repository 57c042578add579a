//! Items on a user's weekly schedule.

use super::types::ScheduleType;
use crate::oid::Oid;
use vstd::prelude::*;

verus! {

pub struct ScheduledTask {
    pub task_id: Oid,
    pub title: String,
    pub category_id: Oid,
    pub category_color: String,
}

pub struct ScheduledHabit {
    pub habit_id: Oid,
    pub name: String,
    pub icon: String,
}

pub struct ScheduledEvent {
    pub event_id: Oid,
    pub title: String,
    /// Days from the common era (day 1 is 0001-01-01).
    pub start_date: Option<i32>,
    /// Milliseconds since the Unix epoch.
    pub due_at: Option<i64>,
}

#[derive(PartialEq, Eq, Structural, Clone, Copy)]
pub enum Weekday {
    Mon,
    Tue,
    Wed,
    Thu,
    Fri,
    Sat,
    Sun,
}

/// A slot of the weekly schedule: which item, on which weekday, and when.
#[allow(non_snake_case)]
pub struct ScheduledAt {
    pub item_id: Oid,
    pub item_type: ScheduleType,
    pub weekday: Weekday,
    /// Seconds since midnight.
    pub startAt: Option<u32>,
    pub endAt: Option<u32>,
}

} // verus!
