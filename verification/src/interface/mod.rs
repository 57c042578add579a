pub mod dto;
pub mod handler;
pub mod te;
