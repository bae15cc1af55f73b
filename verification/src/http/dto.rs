//! Bodies of requests and responses.

pub mod concrete_run;
pub mod map;
pub mod map_file;
pub mod monitor;
pub mod plan;
pub mod scenario;
pub mod scenario_file;
pub mod task;
pub mod task_run;
