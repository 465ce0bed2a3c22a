//! What is answered to a request, once its body is decoded.

pub mod task_controller;
