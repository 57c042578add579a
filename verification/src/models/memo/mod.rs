pub mod schema;
pub mod response;
