//! Checks of the task handlers.

use vstd::prelude::*;
use crate::http::error::AppError;
use crate::http::handlers::file_ops::is_bad_request;

verus! {

/// The count of concrete scenarios feeds the useless-run streak; a negative
/// count would slip past its `== 0` test, so it is refused at the boundary.
pub fn validate_concrete_count(n: i32) -> (res: Result<(), AppError>)
    ensures
        res is Err <==> n < 0,
        res matches Err(e) ==> is_bad_request(e, "concrete_scenarios_executed must be >= 0"@),
{
    if n < 0 {
        return Err(
            AppError::bad_request(String::from_str("concrete_scenarios_executed must be >= 0")),
        );
    }
    Ok(())
}

/// The answer to a task creation, given whether each row it refers to
/// exists: the first missing one, in the order plan, AV, sampler,
/// simulator, monitor, is reported.
pub fn check_task_references(
    plan_exists: bool,
    av_exists: bool,
    sampler_exists: bool,
    simulator_exists: bool,
    monitor_exists: bool,
) -> (res: Result<(), AppError>)
    ensures
        res is Ok <==> plan_exists && av_exists && sampler_exists && simulator_exists
            && monitor_exists,
        !plan_exists ==> (res matches Err(e) && is_bad_request(e, "Plan does not exist"@)),
        plan_exists && !av_exists ==> (res matches Err(e) && is_bad_request(
            e,
            "AV does not exist"@,
        )),
        plan_exists && av_exists && !sampler_exists ==> (res matches Err(e) && is_bad_request(
            e,
            "Sampler does not exist"@,
        )),
        plan_exists && av_exists && sampler_exists && !simulator_exists ==> (res matches Err(e)
            && is_bad_request(e, "Simulator does not exist"@)),
        plan_exists && av_exists && sampler_exists && simulator_exists && !monitor_exists ==> (
        res matches Err(e) && is_bad_request(e, "Monitor does not exist"@)),
{
    if !plan_exists {
        return Err(AppError::bad_request(String::from_str("Plan does not exist")));
    }
    if !av_exists {
        return Err(AppError::bad_request(String::from_str("AV does not exist")));
    }
    if !sampler_exists {
        return Err(AppError::bad_request(String::from_str("Sampler does not exist")));
    }
    if !simulator_exists {
        return Err(AppError::bad_request(String::from_str("Simulator does not exist")));
    }
    if !monitor_exists {
        return Err(AppError::bad_request(String::from_str("Monitor does not exist")));
    }
    Ok(())
}

} // verus!
