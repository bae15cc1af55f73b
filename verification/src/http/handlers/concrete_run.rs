//! Checks of the results of concrete scenario runs reported by executors.

use vstd::prelude::*;
use crate::entity::enums::TaskRunStatus;
use crate::http::error::AppError;
use crate::http::handlers::file_ops::{is_bad_request, is_not_found, is_gone};
use crate::http::handlers::task_run::{not_running_text, run_not_running};
use crate::text::{decimal, decimal_string, is_blank, is_blank_str, str_eq};

verus! {

/// The terminal statuses a concrete run may report.
pub open spec fn is_valid_status(s: Seq<char>) -> bool {
    s == "finished"@ || s == "failed"@ || s == "aborted"@ || s == "skipped"@
}

/// The test outcomes a concrete run may report.
pub open spec fn is_valid_test_outcome(s: Seq<char>) -> bool {
    s == "success"@ || s == "fail"@ || s == "invalid"@ || s == "unknown"@
}

/// The first problem of a reported concrete run, in the order the checks
/// are made, or `None` when it is accepted. The two timing fields are
/// judged by the caller (`*_ok`: absent, or finite and not negative).
pub open spec fn item_problem(
    concrete_key: Seq<char>,
    status: Seq<char>,
    test_outcome: Seq<char>,
    final_sim_time_ok: bool,
    wall_time_ok: bool,
    total_steps: Option<i32>,
) -> Option<Seq<char>> {
    if is_blank(concrete_key) {
        Some("concrete_key must not be empty"@)
    } else if !is_valid_status(status) {
        Some("invalid concrete status: "@ + status)
    } else if !is_valid_test_outcome(test_outcome) {
        Some("invalid concrete test_outcome: "@ + test_outcome)
    } else if !final_sim_time_ok {
        Some("final_sim_time_ms must be finite and >= 0"@)
    } else if !wall_time_ok {
        Some("wall_time_ms must be finite and >= 0"@)
    } else if total_steps matches Some(n) && n < 0 {
        Some("total_steps must be >= 0"@)
    } else {
        None
    }
}

fn is_valid_status_str(s: &str) -> (res: bool)
    ensures
        res == is_valid_status(s@),
{
    str_eq(s, "finished") || str_eq(s, "failed") || str_eq(s, "aborted") || str_eq(s, "skipped")
}

fn is_valid_test_outcome_str(s: &str) -> (res: bool)
    ensures
        res == is_valid_test_outcome(s@),
{
    str_eq(s, "success") || str_eq(s, "fail") || str_eq(s, "invalid") || str_eq(s, "unknown")
}

/// Checks one reported concrete run; the first problem found is reported.
pub fn validate_item(
    concrete_key: &str,
    status: &str,
    test_outcome: &str,
    final_sim_time_ok: bool,
    wall_time_ok: bool,
    total_steps: Option<i32>,
) -> (res: Result<(), AppError>)
    ensures
        res is Ok <==> item_problem(
            concrete_key@,
            status@,
            test_outcome@,
            final_sim_time_ok,
            wall_time_ok,
            total_steps,
        ) is None,
        res matches Err(e) ==> is_bad_request(
            e,
            item_problem(
                concrete_key@,
                status@,
                test_outcome@,
                final_sim_time_ok,
                wall_time_ok,
                total_steps,
            )->0,
        ),
{
    if is_blank_str(concrete_key) {
        return Err(AppError::bad_request(String::from_str("concrete_key must not be empty")));
    }
    if !is_valid_status_str(status) {
        let mut m = String::from_str("invalid concrete status: ");
        m.append(status);
        return Err(AppError::bad_request(m));
    }
    if !is_valid_test_outcome_str(test_outcome) {
        let mut m = String::from_str("invalid concrete test_outcome: ");
        m.append(test_outcome);
        return Err(AppError::bad_request(m));
    }
    if !final_sim_time_ok {
        return Err(
            AppError::bad_request(String::from_str("final_sim_time_ms must be finite and >= 0")),
        );
    }
    if !wall_time_ok {
        return Err(
            AppError::bad_request(String::from_str("wall_time_ms must be finite and >= 0")),
        );
    }
    if let Some(n) = total_steps {
        if n < 0 {
            return Err(AppError::bad_request(String::from_str("total_steps must be >= 0")));
        }
    }
    Ok(())
}

/// What the checks read of one reported concrete run; the two timing
/// fields come as the caller's verdicts (absent, or finite and not
/// negative).
pub struct ConcreteItemCheck {
    pub concrete_key: String,
    pub status: String,
    pub test_outcome: String,
    pub final_sim_time_ok: bool,
    pub wall_time_ok: bool,
    pub total_steps: Option<i32>,
}

/// The first problem of `c`, as `item_problem` says.
pub open spec fn check_problem(c: ConcreteItemCheck) -> Option<Seq<char>> {
    item_problem(
        c.concrete_key@,
        c.status@,
        c.test_outcome@,
        c.final_sim_time_ok,
        c.wall_time_ok,
        c.total_steps,
    )
}

/// Checks a batch of reported concrete runs: the batch is taken whole or
/// not at all, and the first item with a problem, in order, is reported
/// with its first problem.
pub fn validate_items(items: &Vec<ConcreteItemCheck>) -> (res: Result<(), AppError>)
    ensures
        res is Ok <==> forall|i: int| 0 <= i < items@.len() ==> check_problem(#[trigger] items@[i]) is None,
        res matches Err(e) ==> exists|i: int|
            0 <= i < items@.len() && (forall|k: int|
                0 <= k < i ==> check_problem(#[trigger] items@[k]) is None) && (#[trigger] check_problem(
                items@[i],
            ) matches Some(m) && is_bad_request(e, m)),
{
    let mut i: usize = 0;
    while i < items.len()
        invariant
            i <= items@.len(),
            forall|k: int| 0 <= k < i ==> check_problem(#[trigger] items@[k]) is None,
        decreases items@.len() - i,
    {
        let c = &items[i];
        match validate_item(
            c.concrete_key.as_str(),
            c.status.as_str(),
            c.test_outcome.as_str(),
            c.final_sim_time_ok,
            c.wall_time_ok,
            c.total_steps,
        ) {
            Ok(()) => {},
            Err(e) => {
                assert(check_problem(items@[i as int]) is Some);
                return Err(e);
            },
        }
        i = i + 1;
    }
    Ok(())
}

/// What is accepted of a reported concrete run: a key that is not blank,
/// one of the statuses `finished`, `failed`, `aborted`, `skipped`, one of
/// the outcomes `success`, `fail`, `invalid`, `unknown`, acceptable timings,
/// and a step count that is absent or not negative (0 included) pass; a
/// negative step count, all else being acceptable, is refused with
/// `total_steps must be >= 0`.
pub proof fn lemma_accepted_items(
    concrete_key: Seq<char>,
    status: Seq<char>,
    test_outcome: Seq<char>,
    total_steps: Option<i32>,
)
    requires
        !is_blank(concrete_key),
        status == "finished"@ || status == "failed"@ || status == "aborted"@ || status
            == "skipped"@,
        test_outcome == "success"@ || test_outcome == "fail"@ || test_outcome == "invalid"@
            || test_outcome == "unknown"@,
    ensures
        (total_steps is None || total_steps->0 >= 0) ==> item_problem(
            concrete_key,
            status,
            test_outcome,
            true,
            true,
            total_steps,
        ) is None,
        (total_steps is Some && total_steps->0 < 0) ==> item_problem(
            concrete_key,
            status,
            test_outcome,
            true,
            true,
            total_steps,
        ) == Some("total_steps must be >= 0"@),
{
}

/// `task_run {task_run_id}`.
pub open spec fn run_ref_text(task_run_id: i32) -> Seq<char> {
    "task_run "@ + decimal(task_run_id as int)
}

/// Results are taken only for an existing run that is still running:
/// `404` for a missing run, `410 Gone` for a finalized one.
pub fn check_run_open(task_run_id: i32, status: Option<TaskRunStatus>) -> (res: Result<
    (),
    AppError,
>)
    ensures
        status is None ==> (res matches Err(e) && is_not_found(e, run_ref_text(task_run_id))),
        (status matches Some(s) && s != TaskRunStatus::Running) ==> (res matches Err(e) && is_gone(
            e,
            not_running_text(task_run_id),
        )),
        status == Some(TaskRunStatus::Running) ==> res is Ok,
{
    match status {
        None => {
            let mut m = String::from_str("task_run ");
            let n = decimal_string(task_run_id as i64);
            m.append(n.as_str());
            Err(AppError::not_found(m))
        },
        Some(s) => {
            if s != TaskRunStatus::Running {
                return Err(run_not_running(task_run_id));
            }
            Ok(())
        },
    }
}

} // verus!
