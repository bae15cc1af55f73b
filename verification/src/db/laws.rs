//! Properties of the task lifecycle that span several decisions.

use vstd::prelude::*;
use crate::db::task::{
    claimed, ended_run, finalization, permanent_failure, prior_streak_target, snapshot,
    status_after_failure, TaskTransition,
};
use crate::db::task_run::{is_stale, stale_runs};
use crate::entity::enums::{TaskRunStatus, TaskStatus};
use crate::entity::{task, task_run};

verus! {

/// A status other than `Running`: completion, failure and abortion all
/// leave a task in such a status.
pub open spec fn is_not_running(s: TaskStatus) -> bool {
    s != TaskStatus::Running
}

/// Finalizing a task settles it: once a running task has been completed,
/// failed or aborted it is no longer running, so any later report about it
/// (of any kind) leaves it unchanged and writes nothing; and a task that
/// was not running is returned as it was.
pub proof fn lemma_finalization_settles(
    t: task::Model,
    s: TaskStatus,
    attempt_count: Option<i32>,
    run: Option<task_run::Model>,
    rs: TaskRunStatus,
    now: i64,
    error_message: Option<String>,
    count: i32,
    log: Option<String>,
    totals: (i32, i32, i32),
    s2: TaskStatus,
    attempt_count2: Option<i32>,
    run2: Option<task_run::Model>,
    rs2: TaskRunStatus,
    now2: i64,
    error_message2: Option<String>,
    count2: i32,
    log2: Option<String>,
    totals2: (i32, i32, i32),
)
    requires
        is_not_running(s),
    ensures
        match finalization(Some(t), s, attempt_count, run, rs, now, error_message, count, log, totals) {
            TaskTransition::Updated(t2, _) => t2.task_status == s && finalization(
                Some(t2),
                s2,
                attempt_count2,
                run2,
                rs2,
                now2,
                error_message2,
                count2,
                log2,
                totals2,
            ) == TaskTransition::Unchanged(t2),
            TaskTransition::Unchanged(t2) => t2 == t && t.task_status != TaskStatus::Running
                && finalization(
                Some(t2),
                s2,
                attempt_count2,
                run2,
                rs2,
                now2,
                error_message2,
                count2,
                log2,
                totals2,
            ) == TaskTransition::Unchanged(t2),
            TaskTransition::Missing => false,
        },
{
}

/// Every outcome of a failure takes the task out of `Running`: it becomes
/// `Invalid` or goes back to `Queued`.
pub proof fn lemma_failure_status_final(count: i32, recent: Seq<i32>, limit: usize)
    ensures
        is_not_running(status_after_failure(count, recent, limit)),
        status_after_failure(count, recent, limit) == TaskStatus::Invalid || status_after_failure(
            count,
            recent,
            limit,
        ) == TaskStatus::Queued,
{
}

/// The useless-run streak: with a limit of `n >= 1`, a failing run that
/// finished no concrete scenario, after `n - 1` ended runs that finished
/// none either, makes the task `Invalid`.
pub proof fn lemma_full_streak_invalidates(recent: Seq<i32>, limit: usize)
    requires
        limit >= 1,
        recent.len() >= limit - 1,
        forall|i: int| 0 <= i < limit - 1 ==> recent[i] == 0,
    ensures
        status_after_failure(0, recent, limit) == TaskStatus::Invalid,
{
}

/// A useful run resets the streak: if the failing run, or any of the
/// `limit - 1` runs before it, finished a concrete scenario, the task goes
/// back to the queue.
pub proof fn lemma_useful_run_requeues(count: i32, recent: Seq<i32>, limit: usize, k: int)
    requires
        count != 0 || (0 <= k < prior_streak_target(limit) && k < recent.len() && recent[k] != 0),
    ensures
        status_after_failure(count, recent, limit) == TaskStatus::Queued,
{
}

/// A task with fewer ended runs than the streak needs is always requeued.
pub proof fn lemma_short_history_requeues(count: i32, recent: Seq<i32>, limit: usize)
    requires
        recent.len() < prior_streak_target(limit),
    ensures
        status_after_failure(count, recent, limit) == TaskStatus::Queued,
{
}

/// A claimed task is running, so the next report about it is taken: its
/// completion marks it completed and keeps the attempt count of the claim.
pub proof fn lemma_claim_then_complete(
    t: task::Model,
    run_count: i32,
    run: Option<task_run::Model>,
    now: i64,
    count: i32,
    log: Option<String>,
    totals: (i32, i32, i32),
)
    requires
        run_count < i32::MAX,
    ensures
        finalization(
            Some(claimed(t, run_count)),
            TaskStatus::Completed,
            None,
            run,
            TaskRunStatus::Completed,
            now,
            None,
            count,
            log,
            totals,
        ) matches TaskTransition::Updated(t2, _) && t2.task_status == TaskStatus::Completed
            && t2.attempt_count == run_count + 1 && t2.id == t.id,
{
}

/// A reaped run is aborted, hence no longer stale: reaping twice changes
/// nothing more.
pub proof fn lemma_reaped_run_not_stale(r: task_run::Model, now: i64, message: String, cutoff: int)
    ensures
        !is_stale(
            task_run::Model {
                task_run_status: TaskRunStatus::Aborted,
                finished_at: Some(now),
                error_message: Some(message),
                ..r
            },
            cutoff,
        ),
{
}

/// The cumulative counts a run records when it ends: those the executor
/// reports are taken as they are, and an omitted one is inherited from the
/// task's previous run, so that an ending without a report never makes the
/// counts appear to go back.
pub proof fn lemma_omitted_counts_inherited(prior: (i32, i32, i32), reported: (i32, i32, i32))
    ensures
        snapshot((None, None, None), prior) == prior,
        snapshot((Some(reported.0), Some(reported.1), Some(reported.2)), prior) == reported,
{
}

/// How a run ends, whatever its ending status (completed, failed or
/// aborted): it takes that status and ends at `now`; the log sent with the
/// ending replaces the run's log, and without one the log streamed so far
/// is kept; an error message sent replaces the run's, and without one it is
/// kept; the count of concrete scenarios and the cumulative counts are
/// recorded; the run's identity, attempt, start and heartbeat are kept.
pub proof fn lemma_ending_a_run(
    r: task_run::Model,
    s: TaskRunStatus,
    now: i64,
    error_message: Option<String>,
    count: i32,
    log: Option<String>,
    totals: (i32, i32, i32),
)
    ensures
        ({
            let e = ended_run(r, s, now, error_message, count, log, totals);
            &&& e.task_run_status == s
            &&& e.finished_at == Some(now)
            &&& log is None ==> e.log == r.log
            &&& forall|l: String| log == Some(l) ==> e.log == Some(l)
            &&& error_message is None ==> e.error_message == r.error_message
            &&& forall|m: String| error_message == Some(m) ==> e.error_message == Some(m)
            &&& e.concrete_scenarios_executed == count
            &&& e.finished_concrete_runs == totals.0
            &&& e.aborted_concrete_runs == totals.1
            &&& e.skipped_concrete_runs == totals.2
            &&& e.id == r.id && e.task_id == r.task_id && e.executor_id == r.executor_id
            &&& e.attempt == r.attempt && e.started_at == r.started_at
            &&& e.last_heartbeat_at == r.last_heartbeat_at
        }),
{
}

/// The log of a finalized run: when a running task with a running run is
/// completed, failed or aborted, the run's log afterwards is the log sent
/// with the report if there is one, and otherwise the log it had.
pub proof fn lemma_finalization_keeps_or_replaces_log(
    t: task::Model,
    s: TaskStatus,
    attempt_count: Option<i32>,
    run: task_run::Model,
    rs: TaskRunStatus,
    now: i64,
    error_message: Option<String>,
    count: i32,
    log: Option<String>,
    totals: (i32, i32, i32),
)
    requires
        t.task_status == TaskStatus::Running,
    ensures
        finalization(Some(t), s, attempt_count, Some(run), rs, now, error_message, count, log, totals)
            matches TaskTransition::Updated(_, Some(r2)) && (log is None ==> r2.log == run.log) && (
        log is Some ==> r2.log == log) && r2.task_run_status == rs,
{
}

/// Only running runs are reaped: a run that has ended (completed, failed or
/// aborted) is never stale, whatever its heartbeats.
pub proof fn lemma_only_running_runs_are_stale(r: task_run::Model, cutoff: int)
    ensures
        r.task_run_status != TaskRunStatus::Running ==> !is_stale(r, cutoff),
        is_stale(r, cutoff) ==> r.task_run_status == TaskRunStatus::Running,
{
}

/// A running run that sent a heartbeat at `h` is stale exactly when `h` is
/// older than the cutoff; one that never did, exactly when it started
/// before the cutoff; one that neither sent a heartbeat nor started is not.
pub proof fn lemma_stale_by_heartbeat(r: task_run::Model, cutoff: int)
    requires
        r.task_run_status == TaskRunStatus::Running,
    ensures
        forall|h: i64| r.last_heartbeat_at == Some(h) ==> (is_stale(r, cutoff) <==> h < cutoff),
        forall|st: i64|
            r.last_heartbeat_at is None && r.started_at == Some(st) ==> (is_stale(r, cutoff) <==> st
                < cutoff),
        r.last_heartbeat_at is None && r.started_at is None ==> !is_stale(r, cutoff),
{
}

/// Among runs none of which is running, none is selected for reaping.
pub proof fn lemma_no_running_run_none_reaped(runs: Seq<task_run::Model>, cutoff: int)
    requires
        forall|i: int| 0 <= i < runs.len() ==> #[trigger] runs[i].task_run_status
            != TaskRunStatus::Running,
    ensures
        stale_runs(runs, cutoff).len() == 0,
    decreases runs.len(),
{
    if runs.len() > 0 {
        assert(runs.last().task_run_status != TaskRunStatus::Running);
        lemma_no_running_run_none_reaped(runs.drop_last(), cutoff);
    }
}

} // verus!
