//! Data of the database: the row types and the pure parts of the queries.

pub mod models;
pub mod queries;
