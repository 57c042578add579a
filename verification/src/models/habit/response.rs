//! What the service answers about habits.

use crate::models::category::model::StatusType;
use vstd::prelude::*;

verus! {

pub struct GenericResponse {
    pub status: String,
    pub message: String,
}

#[allow(non_snake_case)]
pub struct HabitResponse {
    pub id: String,
    pub user: u128,
    pub name: String,
    pub icon: String,
    pub status: StatusType,
    pub createdAt: i64,
    pub updatedAt: i64,
}

pub struct HabitData {
    pub habit: HabitResponse,
}

pub struct SingleHabitResponse {
    pub status: &'static str,
    pub data: HabitData,
}

pub struct HabitListResponse {
    pub status: &'static str,
    pub results: usize,
    pub habits: Vec<HabitResponse>,
}

} // verus!
