//! Task management: validated value objects, the task aggregate, the
//! repository abstraction with an in-memory store, and the use cases that
//! register, update and delete tasks.

pub mod application_config;
pub mod controllers;
pub mod domain;
pub mod repositories;
pub mod server;
pub mod text;
pub mod use_cases;
pub mod uuid_text;
