//! Stores of tasks.

pub mod app_db;
pub mod task;
