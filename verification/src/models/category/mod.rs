pub mod model;
pub mod merge;
pub mod schema;
pub mod response;
pub mod controller;
pub mod property;
