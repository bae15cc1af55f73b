use vstd::prelude::*;
use vstd::std_specs::convert::FromSpecImpl;
use crate::entity::map_file;

verus! {

/// A stored map file without its content: `size` is its length in bytes.
pub struct MapFileMetaResponse {
    pub id: i32,
    pub map_id: i32,
    pub relative_path: String,
    pub content_sha256: String,
    pub size: usize,
}

impl From<map_file::Model> for MapFileMetaResponse {
    fn from(m: map_file::Model) -> (res: Self) {
        let size = m.content.len();
        MapFileMetaResponse {
            id: m.id,
            map_id: m.map_id,
            relative_path: m.relative_path,
            content_sha256: m.content_sha256,
            size,
        }
    }
}

impl FromSpecImpl<map_file::Model> for MapFileMetaResponse {
    open spec fn obeys_from_spec() -> bool {
        true
    }

    open spec fn from_spec(m: map_file::Model) -> MapFileMetaResponse {
        MapFileMetaResponse {
            id: m.id,
            map_id: m.map_id,
            relative_path: m.relative_path,
            content_sha256: m.content_sha256,
            size: m.content@.len() as usize,
        }
    }
}

} // verus!
