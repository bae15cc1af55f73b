use vstd::prelude::*;

verus! {

/// One bucket of queued work: the tasks that share an AV and a simulator.
/// The resources are the sums of the AV's and the simulator's hints, as
/// both run side by side in one allocation; `oldest_task_id` is the
/// smallest id of a queued task in the bucket.
pub struct DemandBucket {
    pub av_id: i32,
    pub simulator_id: i32,
    pub queued: i64,
    pub cpu_count: i64,
    pub memory_gb: i64,
    pub gpu_count: i64,
    pub oldest_task_id: i32,
}

} // verus!
