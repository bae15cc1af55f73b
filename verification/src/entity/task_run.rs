use vstd::prelude::*;
use crate::entity::enums::TaskRunStatus;

verus! {

/// A row of the `task_run` table: one attempt at executing a task.
/// Timestamps are in microseconds since the Unix epoch.
pub struct Model {
    pub id: i32,
    pub task_id: i32,
    pub executor_id: i32,
    pub attempt: i32,
    pub task_run_status: TaskRunStatus,
    pub started_at: Option<i64>,
    pub finished_at: Option<i64>,
    pub last_heartbeat_at: Option<i64>,
    pub error_message: Option<String>,
    pub log: Option<String>,
    pub concrete_scenarios_executed: i32,
    /// The cumulative counts, over every attempt of the task, of concrete
    /// scenarios that finished, were aborted, and were skipped, as last
    /// reported for this run.
    pub finished_concrete_runs: i32,
    pub aborted_concrete_runs: i32,
    pub skipped_concrete_runs: i32,
}

} // verus!
