pub mod error;
pub mod model;
pub mod response;
pub mod controller;
