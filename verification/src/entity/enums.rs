use vstd::prelude::*;

verus! {

/// Lifecycle state of a task.
#[derive(Clone, Copy, Debug, PartialEq, Eq, Structural)]
pub enum TaskStatus {
    Queued,
    Running,
    Completed,
    Invalid,
    Aborted,
}

/// Lifecycle state of one execution attempt of a task.
#[derive(Clone, Copy, Debug, PartialEq, Eq, Structural)]
pub enum TaskRunStatus {
    Running,
    Completed,
    Failed,
    Aborted,
}

/// The description language a scenario is written in.
#[derive(Clone, Copy, Debug, PartialEq, Eq, Structural)]
pub enum ScenarioFormat {
    OpenScenario1,
    OpenScenario2,
    CarlaLbRoute,
}

} // verus!
