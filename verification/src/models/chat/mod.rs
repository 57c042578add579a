pub mod model;
pub mod schema;
pub mod controller;
pub mod response;
