//! Habits: recurring things a user keeps track of.

use crate::models::category::model::StatusType;
use crate::oid::Oid;
use vstd::prelude::*;

verus! {

#[allow(non_snake_case)]
pub struct HabitModel {
    pub id: Oid,
    pub user: u128,
    pub name: String,
    pub icon: String,
    pub status: StatusType,
    pub createdAt: i64,
    pub updatedAt: i64,
}

} // verus!
