//! The records of the service and the questions it puts to the database.

pub mod user;
