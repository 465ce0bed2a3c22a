//! Registering, updating and deleting a task.

pub mod delete_task;
pub mod delete_task_command;
pub mod register_task;
pub mod register_task_command;
pub mod register_task_result;
pub mod update_task;
pub mod update_task_command;
pub mod update_task_result;
