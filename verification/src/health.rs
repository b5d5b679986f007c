//! What the service says of its own health.

pub mod models;
