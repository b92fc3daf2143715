//! From environment variables to a pool of connections.

pub mod db;
