//! Records kept inside other records: scheduled items, note blocks, property
//! values, and the tasks a listing fetches.

pub mod types;
pub mod schedule_item;
pub mod task_block;
pub mod task_prop_v;
pub mod task;
pub mod daily_item;
pub mod records;
