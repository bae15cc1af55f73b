//! What a task transaction writes: claiming a queued task for an executor,
//! and finalizing a running task as completed or failed.

use vstd::prelude::*;
use crate::entity::enums::{TaskRunStatus, TaskStatus};
use crate::entity::{task, task_run};

verus! {

/// The outcome of a finalization (complete, fail, abort) of a task.
pub enum TaskTransition {
    /// No task has the requested id; nothing is written.
    Missing,
    /// The task is no longer running (stopped from the UI, reaped, already
    /// finalized); it is returned as it is and nothing is written.
    Unchanged(task::Model),
    /// The task row to write back, and the new value of its running
    /// task_run row, if it had one.
    Updated(task::Model, Option<task_run::Model>),
}

/// The task_run row that a claim inserts.
pub struct NewTaskRun {
    pub task_id: i32,
    pub executor_id: i32,
    pub attempt: i32,
    pub task_run_status: TaskRunStatus,
    pub started_at: Option<i64>,
}

/// A task claimed after `run_count` runs: running, with one more attempt.
pub open spec fn claimed(t: task::Model, run_count: i32) -> task::Model {
    task::Model { task_status: TaskStatus::Running, attempt_count: (run_count + 1) as i32, ..t }
}

/// `t` with another status.
pub open spec fn with_status(t: task::Model, s: TaskStatus) -> task::Model {
    task::Model { task_status: s, ..t }
}

/// The cumulative counts (finished, aborted, skipped) that an ending run
/// records: each one the executor reported, and for each one it omitted
/// the count of the task's previous run, `prior`, so that the cumulative
/// counts never appear to decrease.
pub open spec fn snapshot(
    reported: (Option<i32>, Option<i32>, Option<i32>),
    prior: (i32, i32, i32),
) -> (i32, i32, i32) {
    (
        match reported.0 {
            Some(n) => n,
            None => prior.0,
        },
        match reported.1 {
            Some(n) => n,
            None => prior.1,
        },
        match reported.2 {
            Some(n) => n,
            None => prior.2,
        },
    )
}

/// The counts an ending run records, as `snapshot` says.
pub fn concrete_snapshot(
    reported: (Option<i32>, Option<i32>, Option<i32>),
    prior: (i32, i32, i32),
) -> (res: (i32, i32, i32))
    ensures
        res == snapshot(reported, prior),
{
    let finished = match reported.0 {
        Some(n) => n,
        None => prior.0,
    };
    let aborted = match reported.1 {
        Some(n) => n,
        None => prior.1,
    };
    let skipped = match reported.2 {
        Some(n) => n,
        None => prior.2,
    };
    (finished, aborted, skipped)
}

/// The running task_run `r` after it has ended with status `s` at `now`:
/// the count of concrete scenarios and the cumulative counts `totals`
/// (finished, aborted, skipped) are recorded, the error message is replaced
/// when one is given, and the log is replaced only when one is given.
pub open spec fn ended_run(
    r: task_run::Model,
    s: TaskRunStatus,
    now: i64,
    error_message: Option<String>,
    concrete_scenarios_executed: i32,
    log: Option<String>,
    totals: (i32, i32, i32),
) -> task_run::Model {
    task_run::Model {
        task_run_status: s,
        finished_at: Some(now),
        error_message: if error_message is Some { error_message } else { r.error_message },
        concrete_scenarios_executed: concrete_scenarios_executed,
        log: if log is Some { log } else { r.log },
        finished_concrete_runs: totals.0,
        aborted_concrete_runs: totals.1,
        skipped_concrete_runs: totals.2,
        ..r
    }
}

/// The optional running task_run after it has ended.
pub open spec fn ended_run_opt(
    r: Option<task_run::Model>,
    s: TaskRunStatus,
    now: i64,
    error_message: Option<String>,
    concrete_scenarios_executed: i32,
    log: Option<String>,
    totals: (i32, i32, i32),
) -> Option<task_run::Model> {
    match r {
        Some(r) => Some(ended_run(r, s, now, error_message, concrete_scenarios_executed, log, totals)),
        None => None,
    }
}

/// A finalization: a missing task gives `Missing`, a task that is not
/// running is left as it is, and a running task takes status `task_status`
/// (and `attempt_count`, when given) while its running task_run ends as
/// `ended_run` says, recording the cumulative counts `totals`.
pub open spec fn finalization(
    t: Option<task::Model>,
    task_status: TaskStatus,
    attempt_count: Option<i32>,
    running_run: Option<task_run::Model>,
    run_status: TaskRunStatus,
    now: i64,
    error_message: Option<String>,
    concrete_scenarios_executed: i32,
    log: Option<String>,
    totals: (i32, i32, i32),
) -> TaskTransition {
    match t {
        None => TaskTransition::Missing,
        Some(t) => if t.task_status != TaskStatus::Running {
            TaskTransition::Unchanged(t)
        } else {
            let t2 = with_status(t, task_status);
            TaskTransition::Updated(
                match attempt_count {
                    Some(n) => task::Model { attempt_count: n, ..t2 },
                    None => t2,
                },
                ended_run_opt(
                    running_run,
                    run_status,
                    now,
                    error_message,
                    concrete_scenarios_executed,
                    log,
                    totals,
                ),
            )
        },
    }
}

/// The number of earlier runs that, together with a failing run, make up a
/// streak of `useless_streak_limit` runs (`limit - 1`, and 0 for a limit of 0).
pub open spec fn prior_streak_target(useless_streak_limit: usize) -> int {
    if useless_streak_limit >= 1 { useless_streak_limit - 1 } else { 0 }
}

/// A failing run ends the task for good when it finished no concrete
/// scenario and neither did the `limit - 1` runs before it (newest first in
/// `recent`, which holds the ended runs of the task).
pub open spec fn permanent_failure(
    concrete_scenarios_executed: i32,
    recent: Seq<i32>,
    useless_streak_limit: usize,
) -> bool {
    let target = prior_streak_target(useless_streak_limit);
    &&& concrete_scenarios_executed == 0
    &&& recent.len() >= target
    &&& forall|i: int| 0 <= i < target ==> recent[i] == 0
}

/// The task status that a failure leaves: `Invalid` on a full streak of
/// useless runs, `Queued` (to be retried) otherwise.
pub open spec fn status_after_failure(
    concrete_scenarios_executed: i32,
    recent: Seq<i32>,
    useless_streak_limit: usize,
) -> TaskStatus {
    if permanent_failure(concrete_scenarios_executed, recent, useless_streak_limit) {
        TaskStatus::Invalid
    } else {
        TaskStatus::Queued
    }
}

fn end_run(
    running_run: Option<task_run::Model>,
    s: TaskRunStatus,
    now: i64,
    error_message: Option<String>,
    concrete_scenarios_executed: i32,
    log: Option<String>,
    totals: (i32, i32, i32),
) -> (res: Option<task_run::Model>)
    ensures
        res == ended_run_opt(
            running_run,
            s,
            now,
            error_message,
            concrete_scenarios_executed,
            log,
            totals,
        ),
{
    match running_run {
        None => None,
        Some(mut r) => {
            r.task_run_status = s;
            r.finished_at = Some(now);
            if error_message.is_some() {
                r.error_message = error_message;
            }
            r.concrete_scenarios_executed = concrete_scenarios_executed;
            if log.is_some() {
                r.log = log;
            }
            r.finished_concrete_runs = totals.0;
            r.aborted_concrete_runs = totals.1;
            r.skipped_concrete_runs = totals.2;
            Some(r)
        },
    }
}

/// Claims `task` for `executor_id`: the task becomes running with one more
/// attempt than the `run_count` runs it already has, and a running
/// task_run for that attempt is started at `now`.
pub fn claim_task(task: task::Model, run_count: i32, executor_id: i32, now: i64) -> (res: (
    task::Model,
    NewTaskRun,
))
    requires
        run_count < i32::MAX,
    ensures
        res.0 == claimed(task, run_count),
        res.1 == (NewTaskRun {
            task_id: task.id,
            executor_id: executor_id,
            attempt: (run_count + 1) as i32,
            task_run_status: TaskRunStatus::Running,
            started_at: Some(now),
        }),
{
    let mut t = task;
    t.task_status = TaskStatus::Running;
    t.attempt_count = run_count + 1;
    let run = NewTaskRun {
        task_id: t.id,
        executor_id,
        attempt: run_count + 1,
        task_run_status: TaskRunStatus::Running,
        started_at: Some(now),
    };
    (t, run)
}

/// Marks a running task completed, and its running task_run (the one with
/// the highest attempt, if any) completed at `now` with the given count of
/// concrete scenarios; the run's log is replaced only when `log` is given.
/// The run records the cumulative counts the executor `reported`
/// (finished, aborted, skipped), each omitted one taken from `prior`, the
/// counts of the task's previous run.
pub fn complete_task(
    task: Option<task::Model>,
    running_run: Option<task_run::Model>,
    log: Option<String>,
    concrete_scenarios_executed: i32,
    reported: (Option<i32>, Option<i32>, Option<i32>),
    prior: (i32, i32, i32),
    now: i64,
) -> (res: TaskTransition)
    ensures
        res == finalization(
            task,
            TaskStatus::Completed,
            None,
            running_run,
            TaskRunStatus::Completed,
            now,
            None,
            concrete_scenarios_executed,
            log,
            snapshot(reported, prior),
        ),
{
    match task {
        None => TaskTransition::Missing,
        Some(mut t) => {
            if t.task_status != TaskStatus::Running {
                return TaskTransition::Unchanged(t);
            }
            t.task_status = TaskStatus::Completed;
            let run = end_run(
                running_run,
                TaskRunStatus::Completed,
                now,
                None,
                concrete_scenarios_executed,
                log,
                concrete_snapshot(reported, prior),
            );
            TaskTransition::Updated(t, run)
        },
    }
}

/// Records a failed run of a running task. The task goes back to the queue,
/// unless this run and the `useless_streak_limit - 1` ended runs before it
/// (`recent_run_counts`: their counts of concrete scenarios, newest first)
/// all finished no concrete scenario, in which case it becomes `Invalid`.
/// Its attempt count becomes `run_count`, the number of its task_runs. The
/// running task_run ends as failed with `reason` as its error message, and
/// records the cumulative counts as `complete_task` does.
pub fn fail_task(
    task: Option<task::Model>,
    recent_run_counts: &Vec<i32>,
    run_count: i32,
    running_run: Option<task_run::Model>,
    reason: String,
    log: Option<String>,
    concrete_scenarios_executed: i32,
    reported: (Option<i32>, Option<i32>, Option<i32>),
    prior: (i32, i32, i32),
    useless_streak_limit: usize,
    now: i64,
) -> (res: TaskTransition)
    ensures
        res == finalization(
            task,
            status_after_failure(concrete_scenarios_executed, recent_run_counts@, useless_streak_limit),
            Some(run_count),
            running_run,
            TaskRunStatus::Failed,
            now,
            Some(reason),
            concrete_scenarios_executed,
            log,
            snapshot(reported, prior),
        ),
{
    match task {
        None => TaskTransition::Missing,
        Some(mut t) => {
            if t.task_status != TaskStatus::Running {
                return TaskTransition::Unchanged(t);
            }
            let target = useless_streak_limit.saturating_sub(1);
            let mut all_useless = concrete_scenarios_executed == 0 && recent_run_counts.len() >= target;
            if all_useless {
                let mut i: usize = 0;
                while i < target
                    invariant
                        target == prior_streak_target(useless_streak_limit),
                        target <= recent_run_counts@.len(),
                        i <= target,
                        all_useless == (forall|j: int| 0 <= j < i ==> recent_run_counts@[j] == 0),
                    decreases target - i,
                {
                    if recent_run_counts[i] != 0 {
                        all_useless = false;
                    }
                    i = i + 1;
                }
            }
            let new_status = if all_useless {
                TaskStatus::Invalid
            } else {
                TaskStatus::Queued
            };
            t.task_status = new_status;
            t.attempt_count = run_count;
            let run = end_run(
                running_run,
                TaskRunStatus::Failed,
                now,
                Some(reason),
                concrete_scenarios_executed,
                log,
                concrete_snapshot(reported, prior),
            );
            TaskTransition::Updated(t, run)
        },
    }
}

} // verus!
