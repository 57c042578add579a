pub mod error;
pub mod base;
pub mod category;
pub mod chat;
pub mod base_array;
pub mod event;
pub mod habit;
pub mod memo;
pub mod note;
