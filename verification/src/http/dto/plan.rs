use vstd::prelude::*;
use vstd::std_specs::convert::FromSpecImpl;
use crate::entity::plan;

verus! {

/// `tags` are free-form labels for grouping, empty when omitted.
pub struct CreatePlanRequest {
    pub name: String,
    pub map_id: i32,
    pub scenario_id: i32,
    pub tags: Vec<String>,
}

pub struct PlanResponse {
    pub id: i32,
    pub name: String,
    pub map_id: i32,
    pub scenario_id: i32,
    pub tags: Vec<String>,
}

impl From<plan::Model> for PlanResponse {
    fn from(m: plan::Model) -> (res: Self) {
        PlanResponse {
            id: m.id,
            name: m.name,
            map_id: m.map_id,
            scenario_id: m.scenario_id,
            tags: m.tags,
        }
    }
}

impl FromSpecImpl<plan::Model> for PlanResponse {
    open spec fn obeys_from_spec() -> bool {
        true
    }

    open spec fn from_spec(m: plan::Model) -> PlanResponse {
        PlanResponse {
            id: m.id,
            name: m.name,
            map_id: m.map_id,
            scenario_id: m.scenario_id,
            tags: m.tags,
        }
    }
}

} // verus!
