use vstd::prelude::*;
use vstd::std_specs::convert::FromSpecImpl;
use crate::entity::enums::ScenarioFormat;
use crate::entity::scenario;

verus! {

pub struct CreateScenarioRequest {
    pub format: ScenarioFormat,
    pub title: Option<String>,
}

pub struct ScenarioResponse {
    pub id: i32,
    pub format: ScenarioFormat,
    pub title: Option<String>,
}

impl From<scenario::Model> for ScenarioResponse {
    fn from(m: scenario::Model) -> (res: Self) {
        ScenarioResponse { id: m.id, format: m.scenario_format, title: m.title }
    }
}

impl FromSpecImpl<scenario::Model> for ScenarioResponse {
    open spec fn obeys_from_spec() -> bool {
        true
    }

    open spec fn from_spec(m: scenario::Model) -> ScenarioResponse {
        ScenarioResponse { id: m.id, format: m.scenario_format, title: m.title }
    }
}

/// The scenario as an executor sees it in a claimed task.
pub struct ScenarioExecutionDto {
    pub id: i32,
    pub format: ScenarioFormat,
    pub title: Option<String>,
}

impl From<scenario::Model> for ScenarioExecutionDto {
    fn from(m: scenario::Model) -> (res: Self) {
        ScenarioExecutionDto { id: m.id, format: m.scenario_format, title: m.title }
    }
}

impl FromSpecImpl<scenario::Model> for ScenarioExecutionDto {
    open spec fn obeys_from_spec() -> bool {
        true
    }

    open spec fn from_spec(m: scenario::Model) -> ScenarioExecutionDto {
        ScenarioExecutionDto { id: m.id, format: m.scenario_format, title: m.title }
    }
}

} // verus!
