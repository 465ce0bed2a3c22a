//! The operations that the application offers.

pub mod task;
