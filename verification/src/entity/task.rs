use vstd::prelude::*;
use crate::entity::enums::TaskStatus;

verus! {

/// A row of the `task` table. `created_at` is in microseconds since the
/// Unix epoch.
pub struct Model {
    pub id: i32,
    pub plan_id: i32,
    pub av_id: i32,
    pub sampler_id: i32,
    pub simulator_id: i32,
    pub monitor_id: i32,
    pub task_status: TaskStatus,
    pub created_at: i64,
    pub attempt_count: i32,
    pub archived: bool,
}

} // verus!
