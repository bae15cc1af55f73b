use vstd::prelude::*;
use crate::entity::enums::ScenarioFormat;

verus! {

/// A row of the `scenario` table.
pub struct Model {
    pub id: i32,
    pub scenario_format: ScenarioFormat,
    pub title: Option<String>,
}

} // verus!
