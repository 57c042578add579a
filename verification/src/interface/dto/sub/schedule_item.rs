//! Requests and answers about the items of the weekly schedule.

use crate::domain::schedule_item::{ScheduledHabit, ScheduledTask};
use crate::oid::hex_lower;
use crate::domain::schedule_item::{ScheduledAt, ScheduledEvent, Weekday};
use crate::domain::types::ScheduleType;
use vstd::prelude::*;

verus! {

/// A change to a scheduled habit: absent fields stay as they are.
pub struct UpdateScheduledHabitReq {
    pub name: Option<String>,
    pub icon: Option<String>,
}

pub struct ScheduledTaskRes {
    pub task_id: String,
    pub title: String,
    pub category_id: String,
    pub category_color: String,
}

impl ScheduledTaskRes {
    /// What the service answers of a scheduled task: identifiers as text, and its fields.
    pub fn from_model(task: &ScheduledTask) -> (r: Self)
        ensures
            r.task_id@ == hex_lower(task.task_id.bytes@),
            r.title@ == task.title@,
            r.category_id@ == hex_lower(task.category_id.bytes@),
            r.category_color@ == task.category_color@,
    {
        ScheduledTaskRes {
            task_id: task.task_id.to_hex(),
            title: task.title.clone(),
            category_id: task.category_id.to_hex(),
            category_color: task.category_color.clone(),
        }
    }
}

pub struct ScheduledHabitRes {
    pub habit_id: String,
    pub name: String,
    pub icon: String,
}

impl ScheduledHabitRes {
    /// What the service answers of a scheduled habit: its identifier as text, and its fields.
    pub fn from_model(habit: &ScheduledHabit) -> (r: Self)
        ensures
            r.habit_id@ == hex_lower(habit.habit_id.bytes@),
            r.name@ == habit.name@,
            r.icon@ == habit.icon@,
    {
        ScheduledHabitRes { habit_id: habit.habit_id.to_hex(), name: habit.name.clone(), icon: habit.icon.clone() }
    }
}

pub struct ScheduleItemData<T> {
    pub item: T,
}

pub struct SingleScheduleItemRes<T> {
    pub status: &'static str,
    pub data: ScheduleItemData<T>,
}

pub struct ScheduleItemListRes<T> {
    pub status: &'static str,
    pub results: usize,
    pub items: Vec<T>,
}

pub struct ScheduledEventRes {
    pub event_id: String,
    pub title: String,
    pub start_date: Option<i32>,
    pub due_at: Option<i64>,
}

impl ScheduledEventRes {
    pub fn from_model(event: &ScheduledEvent) -> (r: Self)
        ensures
            r.event_id@ == hex_lower(event.event_id.bytes@),
            r.title@ == event.title@,
            r.start_date == event.start_date,
            r.due_at == event.due_at,
    {
        ScheduledEventRes { event_id: event.event_id.to_hex(), title: event.title.clone(), start_date: event.start_date, due_at: event.due_at }
    }
}

#[allow(non_snake_case)]
pub struct ScheduledAtRes {
    pub item_id: String,
    pub item_type: ScheduleType,
    pub weekday: Weekday,
    pub startAt: Option<u32>,
    pub endAt: Option<u32>,
}

impl ScheduledAtRes {
    pub fn from_model(scheduled_at: &ScheduledAt) -> (r: Self)
        ensures
            r.item_id@ == hex_lower(scheduled_at.item_id.bytes@),
            r.item_type == scheduled_at.item_type,
            r.weekday == scheduled_at.weekday,
            r.startAt == scheduled_at.startAt,
            r.endAt == scheduled_at.endAt,
    {
        ScheduledAtRes {
            item_id: scheduled_at.item_id.to_hex(),
            item_type: scheduled_at.item_type,
            weekday: scheduled_at.weekday,
            startAt: scheduled_at.startAt,
            endAt: scheduled_at.endAt,
        }
    }
}

/// A task put on the schedule.
pub struct CreateScheduledTaskReq {
    pub task_id: String,
    pub title: String,
    pub category_id: String,
    pub category_color: String,
}

/// A change to a scheduled task: absent fields stay as they are.
pub struct UpdateScheduledTaskReq {
    pub title: Option<String>,
    pub category_id: Option<String>,
    pub category_color: Option<String>,
}

/// An event put on the schedule (its day from the common era, its due time in milliseconds since the Unix epoch).
pub struct CreateScheduledEventReq {
    pub event_id: String,
    pub title: String,
    pub start_date: Option<i32>,
    pub due_at: Option<i64>,
}

/// A change to a scheduled event: absent fields stay as they are.
pub struct UpdateScheduledEventReq {
    pub title: Option<String>,
    pub start_date: Option<i32>,
    pub due_at: Option<i64>,
}

/// A habit put on the schedule.
pub struct CreateScheduledHabitReq {
    pub habit_id: String,
    pub name: String,
    pub icon: String,
}

/// An item placed on a day of the week.
pub struct CreateScheduledAtReq {
    pub item_id: String,
    pub item_type: ScheduleType,
    pub weekday: Weekday,
}

/// A change to a placement: times of day in seconds after midnight; absent fields stay as they are.
#[allow(non_snake_case)]
pub struct UpdateScheduledAtReq {
    pub item_type: Option<ScheduleType>,
    pub weekday: Option<Weekday>,
    pub startAt: Option<u32>,
    pub endAt: Option<u32>,
}

} // verus!
