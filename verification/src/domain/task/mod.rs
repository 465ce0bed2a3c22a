//! The task aggregate and its value objects.

pub mod task;
pub mod task_description;
pub mod task_id;
pub mod task_repository;
pub mod task_status;
pub mod task_title;
