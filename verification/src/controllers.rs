//! What the service does with a request, step by step.

pub mod user;
