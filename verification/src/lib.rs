//! Task specifications and task records for a container orchestrator.
//!
//! The library turns a work request into a task definition, decides which
//! orchestrator call comes next while a task is spawned or looked up, and
//! normalizes the orchestrator's task records. It performs no I/O: the caller
//! makes each orchestrator call and hands the reply back.

pub mod ecs;
pub mod errors;
pub mod health;
pub mod text;
pub mod time;
pub mod view;
