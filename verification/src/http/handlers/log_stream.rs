//! Streaming of a run's stdout/stderr into its task_run row.

use vstd::prelude::*;
use vstd::utf8::valid_utf8;
use vstd::string::StringSliceAdditionalSpecFns;
use crate::entity::enums::TaskRunStatus;
use crate::http::error::DbFailure;
use crate::text::{decimal, decimal_string};

verus! {

/// The `Display` text of the `Utf8Error` that `std::str::from_utf8` gives
/// for `bytes` (it says where the invalid sequence starts, and how long it
/// is when it is not cut short).
pub uninterp spec fn utf8_error_text(bytes: Seq<u8>) -> Seq<char>;

/// `std::str::from_utf8`: the text of `bytes` when they are valid UTF-8, and
/// the `Display` text of the `Utf8Error` otherwise, named
/// `utf8_error_text`.
#[verifier::external_body]
fn utf8_str(bytes: &[u8]) -> (res: Result<&str, String>)
    ensures
        res is Ok <==> valid_utf8(bytes@),
        res matches Ok(s) ==> s.spec_bytes() =~= bytes@,
        res matches Err(m) ==> m@ == utf8_error_text(bytes@),
{
    match std::str::from_utf8(bytes) {
        Ok(s) => Ok(s),
        Err(e) => Err(e.to_string()),
    }
}

/// `task_run {run_id} is no longer running`.
pub open spec fn no_longer_running_text(run_id: i32) -> Seq<char> {
    "task_run "@ + decimal(run_id as int) + " is no longer running"@
}

/// The refusal of a chunk for a run that is missing or no longer running.
fn no_longer_running(run_id: i32) -> (res: (u16, String))
    ensures
        res.0 == 410,
        res.1@ == no_longer_running_text(run_id),
{
    let mut m = String::from_str("task_run ");
    let n = decimal_string(run_id as i64);
    m.append(n.as_str());
    m.append(" is no longer running");
    (410, m)
}

/// A chunk is appended only to a run that is still running: a missing run,
/// like a finalized one, is answered `410 Gone` (the executor's cue to
/// stop).
pub fn check_log_append(run_id: i32, status: Option<TaskRunStatus>) -> (res: Result<
    (),
    (u16, String),
>)
    ensures
        status != Some(TaskRunStatus::Running) ==> (res matches Err((c, m)) && c == 410 && m@
            == no_longer_running_text(run_id)),
        status == Some(TaskRunStatus::Running) ==> res is Ok,
{
    match status {
        Some(TaskRunStatus::Running) => Ok(()),
        _ => Err(no_longer_running(run_id)),
    }
}

/// The answer to a failed append: the run was finalized (or removed) after
/// the check, which the database reports as a missing record, is `410 Gone`
/// as above; any other failure is a `500` with the database's description.
pub fn append_failure(run_id: i32, failure: DbFailure) -> (res: (u16, String))
    ensures
        failure is RecordNotFound ==> res.0 == 410 && res.1@ == no_longer_running_text(run_id),
        failure matches DbFailure::Other(m) ==> res.0 == 500 && res.1 == m,
{
    match failure {
        DbFailure::RecordNotFound(_) => no_longer_running(run_id),
        DbFailure::Other(m) => (500, m),
    }
}

/// The chunk to append: the body as text, or `400` when it is not UTF-8
/// (the message starts with `utf-8 required: `).
pub fn decode_chunk(body: &[u8]) -> (res: Result<&str, (u16, String)>)
    ensures
        res is Ok <==> valid_utf8(body@),
        res matches Ok(s) ==> s.spec_bytes() =~= body@,
        res matches Err((c, m)) ==> c == 400 && m@ == "utf-8 required: "@ + utf8_error_text(
            body@,
        ),
{
    match utf8_str(body) {
        Ok(s) => Ok(s),
        Err(e) => {
            let mut m = String::from_str("utf-8 required: ");
            m.append(e.as_str());
            Err((400, m))
        },
    }
}

} // verus!
