//! What the task_run bookkeeping writes: aborting a running task, and
//! reaping runs whose executor stopped sending heartbeats.

use vstd::prelude::*;
use crate::db::task::{concrete_snapshot, finalization, snapshot, TaskTransition};
use crate::entity::enums::{TaskRunStatus, TaskStatus};
use crate::entity::{task, task_run};
use crate::text::{decimal, decimal_string};

verus! {

/// Microseconds in a second.
pub const MICROS_PER_SECOND: i64 = 1_000_000;

/// Marks a running task aborted (cancelled by the cluster or stopped by a
/// user), and its running task_run aborted at `now` with `reason` as its
/// error message; the run's log is replaced only when `log` is given, and
/// it records the cumulative counts as `complete_task` does. A task that is
/// no longer running is left as it is.
pub fn abort_task(
    task: Option<task::Model>,
    running_run: Option<task_run::Model>,
    reason: String,
    log: Option<String>,
    concrete_scenarios_executed: i32,
    reported: (Option<i32>, Option<i32>, Option<i32>),
    prior: (i32, i32, i32),
    now: i64,
) -> (res: TaskTransition)
    ensures
        res == finalization(
            task,
            TaskStatus::Aborted,
            None,
            running_run,
            TaskRunStatus::Aborted,
            now,
            Some(reason),
            concrete_scenarios_executed,
            log,
            snapshot(reported, prior),
        ),
{
    match task {
        None => TaskTransition::Missing,
        Some(mut t) => {
            if t.task_status != TaskStatus::Running {
                return TaskTransition::Unchanged(t);
            }
            t.task_status = TaskStatus::Aborted;
            let run = match running_run {
                None => None,
                Some(mut r) => {
                    r.task_run_status = TaskRunStatus::Aborted;
                    r.finished_at = Some(now);
                    r.error_message = Some(reason);
                    r.concrete_scenarios_executed = concrete_scenarios_executed;
                    if log.is_some() {
                        r.log = log;
                    }
                    let totals = concrete_snapshot(reported, prior);
                    r.finished_concrete_runs = totals.0;
                    r.aborted_concrete_runs = totals.1;
                    r.skipped_concrete_runs = totals.2;
                    Some(r)
                },
            };
            TaskTransition::Updated(t, run)
        },
    }
}

/// A run is stale at `cutoff` when it is still running and its last
/// heartbeat is older than `cutoff`, or, having never sent one, it started
/// before `cutoff`.
pub open spec fn is_stale(r: task_run::Model, cutoff: int) -> bool {
    &&& r.task_run_status == TaskRunStatus::Running
    &&& match r.last_heartbeat_at {
        Some(h) => h < cutoff,
        None => match r.started_at {
            Some(s) => s < cutoff,
            None => false,
        },
    }
}

/// The `(run id, task id)` of the stale runs among `runs`, in their order.
pub open spec fn stale_runs(runs: Seq<task_run::Model>, cutoff: int) -> Seq<(i32, i32)>
    decreases runs.len(),
{
    if runs.len() == 0 {
        Seq::empty()
    } else {
        let rest = stale_runs(runs.drop_last(), cutoff);
        let r = runs.last();
        if is_stale(r, cutoff) {
            rest.push((r.id, r.task_id))
        } else {
            rest
        }
    }
}

/// The instant `stale_after_secs` seconds before `now` (microseconds).
pub fn stale_cutoff(now: i64, stale_after_secs: i64) -> (res: i64)
    requires
        -9_223_372_036_854 <= stale_after_secs <= 9_223_372_036_854,
        i64::MIN <= now - stale_after_secs * 1_000_000 <= i64::MAX,
    ensures
        res == now - stale_after_secs * 1_000_000,
{
    now - stale_after_secs * MICROS_PER_SECOND
}

/// `true` when `r` is stale at `cutoff`.
pub fn run_is_stale(r: &task_run::Model, cutoff: i64) -> (res: bool)
    ensures
        res == is_stale(*r, cutoff as int),
{
    if r.task_run_status != TaskRunStatus::Running {
        return false;
    }
    match r.last_heartbeat_at {
        Some(h) => h < cutoff,
        None => match r.started_at {
            Some(s) => s < cutoff,
            None => false,
        },
    }
}

/// The `(run id, task id)` of the runs to reap among `runs`.
pub fn select_stale_runs(runs: &Vec<task_run::Model>, cutoff: i64) -> (res: Vec<(i32, i32)>)
    ensures
        res@ == stale_runs(runs@, cutoff as int),
{
    let mut res: Vec<(i32, i32)> = Vec::new();
    let mut i: usize = 0;
    while i < runs.len()
        invariant
            i <= runs@.len(),
            res@ == stale_runs(runs@.take(i as int), cutoff as int),
        decreases runs@.len() - i,
    {
        assert(runs@.take(i as int + 1).drop_last() =~= runs@.take(i as int));
        let r = &runs[i];
        if run_is_stale(r, cutoff) {
            res.push((r.id, r.task_id));
        }
        i = i + 1;
    }
    assert(runs@.take(runs@.len() as int) =~= runs@);
    res
}

/// The error message recorded on a reaped run.
pub open spec fn reap_message_text(stale_after_secs: i64) -> Seq<char> {
    "no heartbeat from executor for "@ + decimal(stale_after_secs as int) + "s (reaped)"@
}

/// The error message recorded on a reaped run:
/// `no heartbeat from executor for {stale_after_secs}s (reaped)`.
pub fn reap_message(stale_after_secs: i64) -> (res: String)
    ensures
        res@ == reap_message_text(stale_after_secs),
{
    let mut s = String::from_str("no heartbeat from executor for ");
    let n = decimal_string(stale_after_secs);
    s.append(n.as_str());
    s.append("s (reaped)");
    s
}

/// What reaping does to one run, checked again at the moment of the write:
/// a run that is still stale at `cutoff` is aborted at `now` with `message`;
/// any other run (finalized meanwhile, or heard from again) is left alone
/// and `None` is returned.
pub fn reap_run(r: task_run::Model, cutoff: i64, now: i64, message: String) -> (res: Option<
    task_run::Model,
>)
    ensures
        is_stale(r, cutoff as int) ==> res == Some(task_run::Model {
            task_run_status: TaskRunStatus::Aborted,
            finished_at: Some(now),
            error_message: Some(message),
            ..r
        }),
        !is_stale(r, cutoff as int) ==> res is None,
{
    if !run_is_stale(&r, cutoff) {
        return None;
    }
    let mut r = r;
    r.task_run_status = TaskRunStatus::Aborted;
    r.finished_at = Some(now);
    r.error_message = Some(message);
    Some(r)
}

/// The parent task of a reaped run goes back to the queue, but only if it
/// is still running; any other state was reached on purpose and is kept.
pub fn requeue_after_reap(t: task::Model) -> (res: task::Model)
    ensures
        t.task_status == TaskStatus::Running ==> res == (task::Model {
            task_status: TaskStatus::Queued,
            ..t
        }),
        t.task_status != TaskStatus::Running ==> res == t,
{
    let mut t = t;
    if t.task_status == TaskStatus::Running {
        t.task_status = TaskStatus::Queued;
    }
    t
}

} // verus!
