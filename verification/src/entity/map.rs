use vstd::prelude::*;

verus! {

/// A row of the `map` table.
pub struct Model {
    pub id: i32,
    pub name: String,
}

} // verus!
