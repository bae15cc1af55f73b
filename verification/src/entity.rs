//! Rows of the manager's tables, held as plain values.

pub mod enums;
pub mod map;
pub mod map_file;
pub mod monitor;
pub mod plan;
pub mod scenario;
pub mod scenario_file;
pub mod task;
pub mod task_run;
