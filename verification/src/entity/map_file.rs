use vstd::prelude::*;

verus! {

/// A row of the `map_file` table: one file stored under a map.
pub struct Model {
    pub id: i32,
    pub map_id: i32,
    pub relative_path: String,
    pub content: Vec<u8>,
    pub content_sha256: String,
}

} // verus!
