//! The failures that the service reports.

pub mod models;
