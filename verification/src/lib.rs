//! Verified core of a personal planner service: records for categories,
//! events, habits, notes and tasks, the rules that build and update them,
//! the pagination and error-reply rules of its HTTP surface, and the
//! grouping of tasks into a tree.

pub mod oid;
pub mod text;
pub mod error;
pub mod db_error;
pub mod models;
pub mod clock;
pub mod interface;
pub mod domain;
