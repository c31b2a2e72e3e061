pub mod handler;
pub mod model;
pub mod scheme;
pub mod table;
