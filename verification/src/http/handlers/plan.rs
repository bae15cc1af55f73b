//! Checks of the plan handlers, and the bodies of the tag-management
//! endpoints (tags live inline on each plan).

use vstd::prelude::*;
use crate::http::error::AppError;
use crate::http::handlers::file_ops::is_bad_request;
use crate::text::{decimal, decimal_string};

verus! {

/// A tag and the number of plans that carry it.
pub struct TagCount {
    pub name: String,
    pub count: i64,
}

pub struct RemoveTagRequest {
    pub name: String,
}

pub struct RenameTagRequest {
    pub from: String,
    pub to: String,
}

pub struct TagMutationResponse {
    pub plans_updated: u64,
}

/// A tag removal names the tag.
pub fn validate_remove_tag(req: &RemoveTagRequest) -> (res: Result<(), AppError>)
    ensures
        res is Err <==> req.name@.len() == 0,
        res matches Err(e) ==> is_bad_request(e, "name is required"@),
{
    if req.name.as_str().is_empty() {
        return Err(AppError::bad_request(String::from_str("name is required")));
    }
    Ok(())
}

/// A rename names two different, non-empty tags.
pub fn validate_rename_tag(req: &RenameTagRequest) -> (res: Result<(), AppError>)
    ensures
        res is Err <==> req.from@.len() == 0 || req.to@.len() == 0 || req.from@ == req.to@,
        (req.from@.len() == 0 || req.to@.len() == 0) ==> (res matches Err(e) && is_bad_request(
            e,
            "from and to are required"@,
        )),
        (req.from@.len() != 0 && req.to@.len() != 0 && req.from@ == req.to@) ==> (res matches Err(
            e,
        ) && is_bad_request(e, "from and to are identical"@)),
{
    if req.from.as_str().is_empty() || req.to.as_str().is_empty() {
        return Err(AppError::bad_request(String::from_str("from and to are required")));
    }
    if req.from == req.to {
        return Err(AppError::bad_request(String::from_str("from and to are identical")));
    }
    Ok(())
}

/// `map {id} does not exist`, or the same for a scenario.
pub open spec fn missing_ref_text(kind: Seq<char>, id: i32) -> Seq<char> {
    kind + " "@ + decimal(id as int) + " does not exist"@
}

fn missing_ref(kind: &str, id: i32) -> (res: AppError)
    ensures
        is_bad_request(res, missing_ref_text(kind@, id)),
{
    let mut s = String::from_str(kind);
    s.append(" ");
    let n = decimal_string(id as i64);
    s.append(n.as_str());
    s.append(" does not exist");
    AppError::bad_request(s)
}

/// The answer to a plan creation, given whether its map and its scenario
/// exist; the map is checked first.
pub fn check_plan_references(
    map_id: i32,
    map_exists: bool,
    scenario_id: i32,
    scenario_exists: bool,
) -> (res: Result<(), AppError>)
    ensures
        res is Ok <==> map_exists && scenario_exists,
        !map_exists ==> (res matches Err(e) && is_bad_request(e, missing_ref_text("map"@, map_id))),
        map_exists && !scenario_exists ==> (res matches Err(e) && is_bad_request(
            e,
            missing_ref_text("scenario"@, scenario_id),
        )),
{
    if !map_exists {
        return Err(missing_ref("map", map_id));
    }
    if !scenario_exists {
        return Err(missing_ref("scenario", scenario_id));
    }
    Ok(())
}

} // verus!
