//! Requests and answers about the items of a day.

use crate::domain::daily_item::{DailyEventModel, DailyHabitModel, DailyTaskModel, TimerResultModel};
use crate::oid::hex_lower;
use vstd::prelude::*;

verus! {

pub struct CreateDailyTaskReq {
    pub task_id: String,
    pub title: String,
}

pub struct CreateDailyEventReq {
    pub event_id: String,
    pub title: String,
}

pub struct CreateDailyHabitReq {
    pub habit_id: String,
    pub name: String,
    pub icon: String,
}

pub struct DailyItemData<T> {
    pub item: T,
}

pub struct SingleDailyItemRes<T> {
    pub status: &'static str,
    pub data: DailyItemData<T>,
}

pub struct DailyItemListRes<T> {
    pub status: &'static str,
    pub results: usize,
    pub items: Vec<T>,
}

#[allow(non_snake_case)]
pub struct DailyTaskRes {
    pub task_id: String,
    pub title: String,
    pub done: bool,
    pub doneAt: Option<i64>,
}

impl DailyTaskRes {
    pub fn from_model(task: &DailyTaskModel) -> (r: Self)
        ensures
            r.task_id@ == hex_lower(task.task_id.bytes@),
            r.title@ == task.title@,
            r.done == task.done,
            r.doneAt == task.doneAt,
    {
        DailyTaskRes { task_id: task.task_id.to_hex(), title: task.title.clone(), done: task.done, doneAt: task.doneAt }
    }
}

#[allow(non_snake_case)]
pub struct DailyEventRes {
    pub event_id: String,
    pub title: String,
    pub done: bool,
    pub doneAt: Option<i64>,
}

impl DailyEventRes {
    pub fn from_model(event: &DailyEventModel) -> (r: Self)
        ensures
            r.event_id@ == hex_lower(event.event_id.bytes@),
            r.title@ == event.title@,
            r.done == event.done,
            r.doneAt == event.doneAt,
    {
        DailyEventRes { event_id: event.event_id.to_hex(), title: event.title.clone(), done: event.done, doneAt: event.doneAt }
    }
}

#[allow(non_snake_case)]
pub struct DailyHabitRes {
    pub habit_id: String,
    pub icon: String,
    pub name: String,
    pub done: bool,
    pub doneAt: Option<i64>,
}

impl DailyHabitRes {
    pub fn from_model(habit: &DailyHabitModel) -> (r: Self)
        ensures
            r.habit_id@ == hex_lower(habit.habit_id.bytes@),
            r.icon@ == habit.icon@,
            r.name@ == habit.name@,
            r.done == habit.done,
            r.doneAt == habit.doneAt,
    {
        DailyHabitRes {
            habit_id: habit.habit_id.to_hex(),
            icon: habit.icon.clone(),
            name: habit.name.clone(),
            done: habit.done,
            doneAt: habit.doneAt,
        }
    }
}

#[allow(non_snake_case)]
pub struct TimerResultRes {
    pub category_id: String,
    pub category_color: String,
    pub startAt: i64,
    pub endAt: i64,
    pub focus_time: String,
}

impl TimerResultRes {
    pub fn from_model(timer_result: &TimerResultModel) -> (r: Self)
        ensures
            r.category_id@ == hex_lower(timer_result.category_id.bytes@),
            r.category_color@ == timer_result.category_color@,
            r.startAt == timer_result.startAt,
            r.endAt == timer_result.endAt,
            r.focus_time@ == timer_result.focus_time@,
    {
        TimerResultRes {
            category_id: timer_result.category_id.to_hex(),
            category_color: timer_result.category_color.clone(),
            startAt: timer_result.startAt,
            endAt: timer_result.endAt,
            focus_time: timer_result.focus_time.clone(),
        }
    }
}

/// A change to a task of the day (`doneAt` in milliseconds since the Unix epoch).
#[allow(non_snake_case)]
pub struct UpdateDailyTaskReq {
    pub title: Option<String>,
    pub done: Option<bool>,
    pub doneAt: Option<i64>,
}

/// A change to an event of the day.
#[allow(non_snake_case)]
pub struct UpdateDailyEventReq {
    pub title: Option<String>,
    pub done: Option<bool>,
    pub doneAt: Option<i64>,
}

/// A change to a habit of the day.
#[allow(non_snake_case)]
pub struct UpdateDailyHabitReq {
    pub name: Option<String>,
    pub icon: Option<String>,
    pub done: Option<bool>,
    pub doneAt: Option<i64>,
}

/// A finished focus session (times in milliseconds since the Unix epoch).
#[allow(non_snake_case)]
pub struct CreateTimerResultReq {
    pub category_id: String,
    pub category_color: String,
    pub startAt: i64,
    pub endAt: i64,
    pub focus_time: String,
}

/// A change to a focus session: absent fields stay as they are.
#[allow(non_snake_case)]
pub struct UpdateTimerResultReq {
    pub category_id: Option<String>,
    pub category_color: Option<String>,
    pub startAt: Option<i64>,
    pub endAt: Option<i64>,
}

} // verus!
