//! The decisions taken inside the manager's database transactions.

pub mod laws;
pub mod task;
pub mod task_run;
