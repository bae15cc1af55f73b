//! The decisions of the HTTP handlers.

pub mod archive;
pub mod bytes;
pub mod concrete_run;
pub mod config;
pub mod file;
pub mod file_ops;
pub mod log_stream;
pub mod plan;
pub mod queue;
pub mod tag_priority;
pub mod task;
pub mod task_run;
pub mod upload;
pub mod upload_flow;
pub mod upload_form;
