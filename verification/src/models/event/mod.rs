pub mod model;
pub mod schema;
pub mod response;
pub mod controller;
