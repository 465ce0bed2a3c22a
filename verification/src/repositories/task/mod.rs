//! The stores that keep tasks.

pub mod task_in_memory_repository;
pub mod task_mysql_repository;
