use vstd::prelude::*;

verus! {

/// A row of the `scenario_file` table: one file stored under a scenario.
pub struct Model {
    pub id: i32,
    pub scenario_id: i32,
    pub relative_path: String,
    pub content: Vec<u8>,
    pub content_sha256: String,
}

} // verus!
