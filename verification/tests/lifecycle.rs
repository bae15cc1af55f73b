use manager::db::task::{claim_task, complete_task, concrete_snapshot, fail_task, TaskTransition};
use manager::db::task_run::{
    abort_task, reap_message, reap_run, requeue_after_reap, run_is_stale, select_stale_runs,
    stale_cutoff,
};
use manager::entity::enums::{TaskRunStatus, TaskStatus};
use manager::entity::{task, task_run};

fn task_with(status: TaskStatus) -> task::Model {
    task::Model {
        id: 7,
        plan_id: 1,
        av_id: 2,
        sampler_id: 3,
        simulator_id: 4,
        monitor_id: 5,
        task_status: status,
        created_at: 1_000,
        attempt_count: 2,
        archived: false,
    }
}

fn running_run() -> task_run::Model {
    task_run::Model {
        id: 70,
        task_id: 7,
        executor_id: 9,
        attempt: 3,
        task_run_status: TaskRunStatus::Running,
        started_at: Some(100),
        finished_at: None,
        last_heartbeat_at: Some(200),
        error_message: None,
        log: Some("earlier output".to_string()),
        concrete_scenarios_executed: 0,
        finished_concrete_runs: 1,
        aborted_concrete_runs: 0,
        skipped_concrete_runs: 0,
    }
}

const NO_REPORT: (Option<i32>, Option<i32>, Option<i32>) = (None, None, None);
const NO_PRIOR: (i32, i32, i32) = (0, 0, 0);

#[test]
fn claim_starts_next_attempt() {
    let (t, run) = claim_task(task_with(TaskStatus::Queued), 2, 9, 500);
    assert_eq!(t.task_status, TaskStatus::Running);
    assert_eq!(t.attempt_count, 3);
    assert_eq!(t.id, 7);
    assert_eq!(run.task_id, 7);
    assert_eq!(run.executor_id, 9);
    assert_eq!(run.attempt, 3);
    assert_eq!(run.task_run_status, TaskRunStatus::Running);
    assert_eq!(run.started_at, Some(500));
}

#[test]
fn complete_running_task() {
    match complete_task(Some(task_with(TaskStatus::Running)), Some(running_run()), None, 4, NO_REPORT, NO_PRIOR, 900) {
        TaskTransition::Updated(t, Some(r)) => {
            assert_eq!(t.task_status, TaskStatus::Completed);
            assert_eq!(t.attempt_count, 2);
            assert_eq!(r.task_run_status, TaskRunStatus::Completed);
            assert_eq!(r.finished_at, Some(900));
            assert_eq!(r.concrete_scenarios_executed, 4);
            assert_eq!(r.log.as_deref(), Some("earlier output"));
            assert_eq!(r.error_message, None);
        }
        _ => panic!("expected an update"),
    }
}

#[test]
fn complete_replaces_log_when_given() {
    match complete_task(
        Some(task_with(TaskStatus::Running)),
        Some(running_run()),
        Some("full log".to_string()),
        1, NO_REPORT, NO_PRIOR,
        900) {
        TaskTransition::Updated(_, Some(r)) => assert_eq!(r.log.as_deref(), Some("full log")),
        _ => panic!("expected an update"),
    }
}

#[test]
fn complete_without_running_run() {
    match complete_task(Some(task_with(TaskStatus::Running)), None, None, 0, NO_REPORT, NO_PRIOR, 900) {
        TaskTransition::Updated(t, None) => assert_eq!(t.task_status, TaskStatus::Completed),
        _ => panic!("expected an update without run"),
    }
}

#[test]
fn finalizing_a_stopped_task_changes_nothing() {
    for status in [TaskStatus::Queued, TaskStatus::Completed, TaskStatus::Invalid, TaskStatus::Aborted] {
        match complete_task(Some(task_with(status)), Some(running_run()), None, 3, NO_REPORT, NO_PRIOR, 900) {
            TaskTransition::Unchanged(t) => assert_eq!(t.task_status, status),
            _ => panic!("expected no change"),
        }
        match fail_task(Some(task_with(status)), &vec![], 1, Some(running_run()), "x".to_string(), None, 0, NO_REPORT, NO_PRIOR, 10, 900) {
            TaskTransition::Unchanged(t) => assert_eq!(t.task_status, status),
            _ => panic!("expected no change"),
        }
        match abort_task(Some(task_with(status)), Some(running_run()), "x".to_string(), None, 0, NO_REPORT, NO_PRIOR, 900) {
            TaskTransition::Unchanged(t) => assert_eq!(t.task_status, status),
            _ => panic!("expected no change"),
        }
    }
}

#[test]
fn missing_task_is_missing() {
    assert!(matches!(complete_task(None, None, None, 0, NO_REPORT, NO_PRIOR, 1), TaskTransition::Missing));
    assert!(matches!(fail_task(None, &vec![], 0, None, String::new(), None, 0, NO_REPORT, NO_PRIOR, 10, 1), TaskTransition::Missing));
    assert!(matches!(abort_task(None, None, String::new(), None, 0, NO_REPORT, NO_PRIOR, 1), TaskTransition::Missing));
}

#[test]
fn second_completion_is_ignored() {
    let first = complete_task(Some(task_with(TaskStatus::Running)), Some(running_run()), None, 2, NO_REPORT, NO_PRIOR, 900);
    let t = match first {
        TaskTransition::Updated(t, _) => t,
        _ => panic!("expected an update"),
    };
    match complete_task(Some(t), Some(running_run()), None, 5, NO_REPORT, NO_PRIOR, 950) {
        TaskTransition::Unchanged(t) => assert_eq!(t.task_status, TaskStatus::Completed),
        _ => panic!("expected no change"),
    }
}

fn fail_status(recent: Vec<i32>, count: i32, limit: usize) -> TaskStatus {
    match fail_task(
        Some(task_with(TaskStatus::Running)),
        &recent,
        4,
        Some(running_run()),
        "boom".to_string(),
        None,
        count, NO_REPORT, NO_PRIOR,
        limit,
        900) {
        TaskTransition::Updated(t, _) => t.task_status,
        _ => panic!("expected an update"),
    }
}

#[test]
fn failure_requeues_with_run_count_as_attempts() {
    match fail_task(
        Some(task_with(TaskStatus::Running)),
        &vec![0, 3],
        4,
        Some(running_run()),
        "boom".to_string(),
        Some("tail".to_string()),
        0, NO_REPORT, NO_PRIOR,
        10,
        900) {
        TaskTransition::Updated(t, Some(r)) => {
            assert_eq!(t.task_status, TaskStatus::Queued);
            assert_eq!(t.attempt_count, 4);
            assert_eq!(r.task_run_status, TaskRunStatus::Failed);
            assert_eq!(r.error_message.as_deref(), Some("boom"));
            assert_eq!(r.log.as_deref(), Some("tail"));
            assert_eq!(r.finished_at, Some(900));
        }
        _ => panic!("expected an update"),
    }
}

#[test]
fn full_useless_streak_invalidates() {
    assert_eq!(fail_status(vec![0, 0], 0, 3), TaskStatus::Invalid);
    assert_eq!(fail_status(vec![0; 9], 0, 10), TaskStatus::Invalid);
    // Runs beyond the streak window do not matter.
    assert_eq!(fail_status(vec![0, 0, 5], 0, 3), TaskStatus::Invalid);
}

#[test]
fn useful_run_resets_streak() {
    assert_eq!(fail_status(vec![0, 1], 0, 3), TaskStatus::Queued);
    assert_eq!(fail_status(vec![0, 0], 2, 3), TaskStatus::Queued);
}

#[test]
fn short_history_requeues() {
    assert_eq!(fail_status(vec![0], 0, 3), TaskStatus::Queued);
    assert_eq!(fail_status(vec![], 0, 10), TaskStatus::Queued);
}

#[test]
fn streak_limit_of_one_or_zero_fails_at_once() {
    assert_eq!(fail_status(vec![], 0, 1), TaskStatus::Invalid);
    assert_eq!(fail_status(vec![], 0, 0), TaskStatus::Invalid);
    assert_eq!(fail_status(vec![], 1, 1), TaskStatus::Queued);
}

#[test]
fn abort_running_task() {
    match abort_task(Some(task_with(TaskStatus::Running)), Some(running_run()), "scancel".to_string(), None, 6, NO_REPORT, NO_PRIOR, 990) {
        TaskTransition::Updated(t, Some(r)) => {
            assert_eq!(t.task_status, TaskStatus::Aborted);
            assert_eq!(r.task_run_status, TaskRunStatus::Aborted);
            assert_eq!(r.error_message.as_deref(), Some("scancel"));
            assert_eq!(r.concrete_scenarios_executed, 6);
            assert_eq!(r.finished_at, Some(990));
        }
        _ => panic!("expected an update"),
    }
}

#[test]
fn stale_cutoff_in_microseconds() {
    assert_eq!(stale_cutoff(10_000_000, 3), 7_000_000);
    assert_eq!(stale_cutoff(0, 0), 0);
}

#[test]
fn staleness_by_heartbeat_or_start() {
    let mut r = running_run();
    r.last_heartbeat_at = Some(199);
    assert!(run_is_stale(&r, 200));
    r.last_heartbeat_at = Some(200);
    assert!(!run_is_stale(&r, 200));
    r.last_heartbeat_at = None;
    r.started_at = Some(150);
    assert!(run_is_stale(&r, 200));
    r.started_at = None;
    assert!(!run_is_stale(&r, 200));
    let mut done = running_run();
    done.task_run_status = TaskRunStatus::Completed;
    done.last_heartbeat_at = Some(1);
    assert!(!run_is_stale(&done, 200));
}

#[test]
fn select_stale_runs_in_order() {
    let mut a = running_run();
    a.id = 1;
    a.task_id = 11;
    a.last_heartbeat_at = Some(10);
    let mut b = running_run();
    b.id = 2;
    b.last_heartbeat_at = Some(500);
    let mut c = running_run();
    c.id = 3;
    c.task_id = 33;
    c.last_heartbeat_at = None;
    c.started_at = Some(20);
    assert_eq!(select_stale_runs(&vec![a, b, c], 100), vec![(1, 11), (3, 33)]);
    assert_eq!(select_stale_runs(&vec![], 100), vec![]);
}

#[test]
fn reap_message_text() {
    assert_eq!(reap_message(300), "no heartbeat from executor for 300s (reaped)");
    assert_eq!(reap_message(-5), "no heartbeat from executor for -5s (reaped)");
}

#[test]
fn reap_once() {
    let mut r = running_run();
    r.last_heartbeat_at = Some(10);
    let reaped = reap_run(r, 100, 120, "gone".to_string()).expect("stale run is reaped");
    assert_eq!(reaped.task_run_status, TaskRunStatus::Aborted);
    assert_eq!(reaped.finished_at, Some(120));
    assert_eq!(reaped.error_message.as_deref(), Some("gone"));
    assert!(reap_run(reaped, 100, 130, "again".to_string()).is_none());
    let fresh = running_run();
    assert!(reap_run(fresh, 100, 120, "x".to_string()).is_none());
}

#[test]
fn requeue_only_running_tasks() {
    assert_eq!(requeue_after_reap(task_with(TaskStatus::Running)).task_status, TaskStatus::Queued);
    for s in [TaskStatus::Queued, TaskStatus::Completed, TaskStatus::Invalid, TaskStatus::Aborted] {
        assert_eq!(requeue_after_reap(task_with(s)).task_status, s);
    }
}

#[test]
fn ending_run_records_cumulative_counts() {
    match complete_task(
        Some(task_with(TaskStatus::Running)),
        Some(running_run()),
        None,
        5,
        (Some(5), None, Some(2)),
        (3, 4, 1),
        900,
    ) {
        TaskTransition::Updated(_, Some(r)) => {
            assert_eq!((r.finished_concrete_runs, r.aborted_concrete_runs, r.skipped_concrete_runs), (5, 4, 2));
        }
        _ => panic!("expected an update"),
    }
}

#[test]
fn omitted_counts_are_inherited_from_previous_run() {
    match abort_task(
        Some(task_with(TaskStatus::Running)),
        Some(running_run()),
        "SIGTERM".to_string(),
        None,
        0,
        (None, None, None),
        (7, 1, 2),
        990,
    ) {
        TaskTransition::Updated(_, Some(r)) => {
            assert_eq!((r.finished_concrete_runs, r.aborted_concrete_runs, r.skipped_concrete_runs), (7, 1, 2));
        }
        _ => panic!("expected an update"),
    }
    match fail_task(
        Some(task_with(TaskStatus::Running)),
        &vec![],
        4,
        Some(running_run()),
        "init".to_string(),
        None,
        0,
        (None, Some(3), None),
        (2, 2, 2),
        10,
        900,
    ) {
        TaskTransition::Updated(_, Some(r)) => {
            assert_eq!((r.finished_concrete_runs, r.aborted_concrete_runs, r.skipped_concrete_runs), (2, 3, 2));
        }
        _ => panic!("expected an update"),
    }
    assert_eq!(concrete_snapshot((None, None, None), (0, 0, 0)), (0, 0, 0));
    assert_eq!(concrete_snapshot((Some(1), Some(2), Some(3)), (9, 9, 9)), (1, 2, 3));
}
