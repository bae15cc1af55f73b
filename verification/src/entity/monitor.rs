use vstd::prelude::*;

verus! {

/// A row of the `monitor` table.
pub struct Model {
    pub id: i32,
    pub name: String,
    pub monitor_module_path: String,
    pub config: Option<Vec<u8>>,
    pub config_sha256: Option<String>,
}

} // verus!
