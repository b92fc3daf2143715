//! Verified core of a read-only HTTP service over one table of users.
//!
//! The crate decides and computes. It opens no socket and runs no query: a
//! caller owns the sockets and the database connections, asks the crate what
//! to do next, does it, and hands back what came of it.
//!
//! One call goes outward, the one that makes the connection pool. It opens no
//! connection, but it does look at the machine: the pool takes its size from
//! the number of processors, and where the settings name no user it takes
//! the user from the `USER` environment variable.

pub mod controllers;
pub mod database;
pub mod models;
pub mod routes;
