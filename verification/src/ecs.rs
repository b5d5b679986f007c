//! Task definitions, task records, and the steps of the three operations on
//! the orchestrator.

pub mod catalog;
pub mod gateway;
pub mod laws;
pub mod models;
pub mod normalize;
pub mod query;
pub mod raw;
pub mod spawn;
