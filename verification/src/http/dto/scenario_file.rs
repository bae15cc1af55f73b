use vstd::prelude::*;
use vstd::std_specs::convert::FromSpecImpl;
use crate::entity::scenario_file;

verus! {

/// A stored scenario file without its content: `size` is its length in
/// bytes.
pub struct ScenarioFileMetaResponse {
    pub id: i32,
    pub scenario_id: i32,
    pub relative_path: String,
    pub content_sha256: String,
    pub size: usize,
}

impl From<scenario_file::Model> for ScenarioFileMetaResponse {
    fn from(m: scenario_file::Model) -> (res: Self) {
        let size = m.content.len();
        ScenarioFileMetaResponse {
            id: m.id,
            scenario_id: m.scenario_id,
            relative_path: m.relative_path,
            content_sha256: m.content_sha256,
            size,
        }
    }
}

impl FromSpecImpl<scenario_file::Model> for ScenarioFileMetaResponse {
    open spec fn obeys_from_spec() -> bool {
        true
    }

    open spec fn from_spec(m: scenario_file::Model) -> ScenarioFileMetaResponse {
        ScenarioFileMetaResponse {
            id: m.id,
            scenario_id: m.scenario_id,
            relative_path: m.relative_path,
            content_sha256: m.content_sha256,
            size: m.content@.len() as usize,
        }
    }
}

} // verus!
