use vstd::prelude::*;
use crate::http::error::AppError;
use crate::http::handlers::file_ops::{is_gone, NO_CONTENT};
use crate::text::{decimal, decimal_string};

verus! {

/// `task_run {run_id} is not running`.
pub open spec fn not_running_text(run_id: i32) -> Seq<char> {
    "task_run "@ + decimal(run_id as int) + " is not running"@
}

/// `410 Gone` for a run that has been finalized.
pub fn run_not_running(run_id: i32) -> (res: AppError)
    ensures
        is_gone(res, not_running_text(run_id)),
{
    let mut s = String::from_str("task_run ");
    let n = decimal_string(run_id as i64);
    s.append(n.as_str());
    s.append(" is not running");
    AppError::gone(s)
}

/// The answer to a progress snapshot, given whether the running run took
/// it: `204`, or `410 Gone` once the run has been finalized (the executor
/// then stops reporting).
pub fn update_progress_result(run_id: i32, updated: bool) -> (res: Result<u16, AppError>)
    ensures
        updated ==> res == Ok::<u16, AppError>(204),
        !updated ==> (res matches Err(e) && is_gone(e, not_running_text(run_id))),
{
    if !updated {
        return Err(run_not_running(run_id));
    }
    Ok(NO_CONTENT)
}

} // verus!
