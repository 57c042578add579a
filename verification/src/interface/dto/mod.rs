//! What clients send to the service and what it answers.

use vstd::prelude::*;

pub mod category;
pub mod chat;
pub mod event;
pub mod note;
pub mod relation;
pub mod habit;
pub mod memo;
pub mod schedule;
pub mod sub;
pub mod tag;
pub mod tag_group;
pub mod task;

verus! {

/// The page of a listing that a client asks for; both count from 1.
pub struct FilterOptions {
    pub page: Option<usize>,
    pub limit: Option<usize>,
}

} // verus!
