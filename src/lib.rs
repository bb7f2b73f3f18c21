//! A small task service: request validation, the decisions of the four
//! task operations, and the semantics of the task table they run against.

pub mod laws;
pub mod model;
pub mod service;
pub mod table;
pub mod task_id;
