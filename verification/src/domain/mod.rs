//! The task domain.

pub mod task;
