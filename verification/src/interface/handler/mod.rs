pub mod task;
pub mod common;
