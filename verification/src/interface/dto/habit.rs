//! Requests about habits.

use crate::models::category::model::StatusType;
use crate::models::habit::model::HabitModel;
use crate::oid::hex_lower;
use vstd::prelude::*;

verus! {

pub struct CreateHabitReq {
    pub name: String,
    pub icon: String,
}

/// A change to a habit: absent fields stay as they are.
pub struct UpdateHabitReq {
    pub name: Option<String>,
    pub icon: Option<String>,
    pub status: Option<StatusType>,
}

#[allow(non_snake_case)]
pub struct HabitRes {
    pub id: String,
    pub user: u128,
    pub name: String,
    pub icon: String,
    pub status: StatusType,
    pub createdAt: i64,
    pub updatedAt: i64,
}

impl HabitRes {
    /// What the service answers of a habit: its identifier as text, and its fields.
    pub fn from_model(habit: &HabitModel) -> (r: Self)
        ensures
            r.id@ == hex_lower(habit.id.bytes@),
            r.user == habit.user,
            r.name@ == habit.name@,
            r.icon@ == habit.icon@,
            r.status == habit.status,
            r.createdAt == habit.createdAt,
            r.updatedAt == habit.updatedAt,
    {
        HabitRes {
            id: habit.id.to_hex(),
            user: habit.user,
            name: habit.name.clone(),
            icon: habit.icon.clone(),
            status: habit.status,
            createdAt: habit.createdAt,
            updatedAt: habit.updatedAt,
        }
    }
}

pub struct HabitData {
    pub habit: HabitRes,
}

pub struct SingleHabitRes {
    pub status: &'static str,
    pub data: HabitData,
}

pub struct HabitListRes {
    pub status: &'static str,
    pub results: usize,
    pub habits: Vec<HabitRes>,
}

} // verus!
