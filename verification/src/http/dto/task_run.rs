use vstd::prelude::*;

verus! {

/// A live progress snapshot of a run. `expected_concrete_runs` is the
/// sampler's total when it is known.
pub struct TaskRunProgressRequest {
    pub finished_concrete_runs: i32,
    pub aborted_concrete_runs: i32,
    pub skipped_concrete_runs: i32,
    pub expected_concrete_runs: Option<i32>,
}

} // verus!
