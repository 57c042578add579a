pub mod chat;
pub mod daily_item;
pub mod property;
pub mod schedule_item;
pub mod task_block;
pub mod task_prop_v;
