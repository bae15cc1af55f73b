use vstd::prelude::*;
use vstd::std_specs::convert::FromSpecImpl;
use crate::entity::enums::TaskStatus;
use crate::entity::task;

verus! {

/// Every task pins exactly one plan, AV, sampler, simulator and monitor.
pub struct CreateTaskRequest {
    pub plan_id: i32,
    pub av_id: i32,
    pub sampler_id: i32,
    pub simulator_id: i32,
    pub monitor_id: i32,
}

/// A task as the API lists it; `created_at` is in microseconds since the
/// Unix epoch.
pub struct TaskResponse {
    pub id: i32,
    pub plan_id: i32,
    pub av_id: i32,
    pub simulator_id: i32,
    pub sampler_id: i32,
    pub task_status: TaskStatus,
    pub created_at: i64,
    pub attempt_count: i32,
    pub archived: bool,
    pub monitor_id: i32,
}

impl From<task::Model> for TaskResponse {
    fn from(m: task::Model) -> (res: Self) {
        TaskResponse {
            id: m.id,
            plan_id: m.plan_id,
            av_id: m.av_id,
            simulator_id: m.simulator_id,
            sampler_id: m.sampler_id,
            task_status: m.task_status,
            created_at: m.created_at,
            attempt_count: m.attempt_count,
            archived: m.archived,
            monitor_id: m.monitor_id,
        }
    }
}

impl FromSpecImpl<task::Model> for TaskResponse {
    open spec fn obeys_from_spec() -> bool {
        true
    }

    open spec fn from_spec(m: task::Model) -> TaskResponse {
        TaskResponse {
            id: m.id,
            plan_id: m.plan_id,
            av_id: m.av_id,
            simulator_id: m.simulator_id,
            sampler_id: m.sampler_id,
            task_status: m.task_status,
            created_at: m.created_at,
            attempt_count: m.attempt_count,
            archived: m.archived,
            monitor_id: m.monitor_id,
        }
    }
}

/// An executor asking for work; each given id narrows the tasks it accepts.
pub struct ClaimTaskRequest {
    pub executor_id: i32,
    pub task_id: Option<i32>,
    pub map_id: Option<i32>,
    pub scenario_id: Option<i32>,
    pub av_id: Option<i32>,
    pub simulator_id: Option<i32>,
    pub sampler_id: Option<i32>,
}

/// The task as an executor sees it in a claim.
pub struct TaskExecutionDto {
    pub id: i32,
}

impl From<task::Model> for TaskExecutionDto {
    fn from(m: task::Model) -> (res: Self) {
        TaskExecutionDto { id: m.id }
    }
}

impl FromSpecImpl<task::Model> for TaskExecutionDto {
    open spec fn obeys_from_spec() -> bool {
        true
    }

    open spec fn from_spec(m: task::Model) -> TaskExecutionDto {
        TaskExecutionDto { id: m.id }
    }
}

/// An executor reporting the end of a run. `concrete_scenarios_executed`
/// is the number of concrete scenarios the run finished; the three
/// cumulative counts cover every attempt of the task and are omitted by
/// the paths that end a run early.
pub struct TaskRunUpdateRequest {
    pub task_id: i32,
    pub reason: Option<String>,
    pub log: Option<String>,
    pub concrete_scenarios_executed: i32,
    pub finished_concrete_runs: Option<i32>,
    pub aborted_concrete_runs: Option<i32>,
    pub skipped_concrete_runs: Option<i32>,
}

} // verus!
