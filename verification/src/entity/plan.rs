use vstd::prelude::*;

verus! {

/// A row of the `plan` table: a scenario bound to a map, with free-form tags.
pub struct Model {
    pub id: i32,
    pub name: String,
    pub map_id: i32,
    pub scenario_id: i32,
    pub tags: Vec<String>,
}

} // verus!
