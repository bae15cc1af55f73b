//! The creation of one uploaded scenario, step by step: look up its map
//! (when its description names one), create the scenario, store each of its
//! files, then bind it to the map in a plan. Each step is a database call
//! made by the caller; the first one that fails ends the scenario with an
//! error, and a scenario whose steps all succeed is reported created.

use vstd::prelude::*;
use crate::http::handlers::upload::{plan_name, ScenarioUploadResult};

verus! {

/// Where the creation of a scenario stands.
pub enum UploadPhase {
    LookingUpMap,
    CreatingScenario,
    StoringFiles,
    CreatingPlan,
    Done(ScenarioUploadResult),
}

/// The creation of one scenario: its name, the map its description names,
/// the paths of its files, and what the steps so far produced.
pub struct ScenarioUpload {
    pub name: String,
    pub map_name: Option<String>,
    pub file_paths: Vec<String>,
    pub map_id: Option<i32>,
    pub scenario_id: Option<i32>,
    pub stored: usize,
    pub plan_created: bool,
    pub phase: UploadPhase,
}

/// The database call to make next.
pub enum UploadAction {
    /// Find the map of this name.
    LookupMap(String),
    /// Create the scenario under its name.
    CreateScenario,
    /// Store the file at this index of `file_paths` under the scenario.
    StoreFile(usize, i32),
    /// Create the plan of this name binding the map to the scenario.
    CreatePlan(String, i32, i32),
    /// Nothing more: the scenario's result is final.
    Finish,
}

/// The outcome of the call the caller made; an error carries the database
/// layer's description.
pub enum UploadEvent {
    MapLookedUp(Result<Option<i32>, String>),
    ScenarioCreated(Result<i32, String>),
    FileStored(Result<(), String>),
    PlanCreated(Result<(), String>),
}

/// `r` reports the scenario `name` as created.
pub open spec fn is_created(r: ScenarioUploadResult, name: String) -> bool {
    &&& r.name == name
    &&& r.status@ == "created"@
    &&& r.message is None
}

/// `r` reports an error for the scenario `name`, with message `msg`.
pub open spec fn is_error(r: ScenarioUploadResult, name: String, msg: Seq<char>) -> bool {
    &&& r.name == name
    &&& r.status@ == "error"@
    &&& r.message matches Some(m) && m@ == msg
}

/// `t` is `s` in another phase, with nothing else changed.
pub open spec fn only_phase(s: ScenarioUpload, t: ScenarioUpload) -> bool {
    t == ScenarioUpload { phase: t.phase, ..s }
}

/// `t` ends `s` with an error of message `msg`.
pub open spec fn ends_in_error(s: ScenarioUpload, t: ScenarioUpload, msg: Seq<char>) -> bool {
    only_phase(s, t) && (t.phase matches UploadPhase::Done(r) && is_error(r, s.name, msg))
}

/// What follows the storing of the last file (or the creation of a scenario
/// without files): the plan, when a map was found, and otherwise the end.
pub open spec fn after_files(s: ScenarioUpload, t: ScenarioUpload) -> bool {
    match s.map_id {
        Some(_) => t == ScenarioUpload { phase: UploadPhase::CreatingPlan, ..s },
        None => only_phase(s, t) && (t.phase matches UploadPhase::Done(r) && is_created(r, s.name)),
    }
}

/// The event answers the call that the phase asks for.
pub open spec fn fits(p: UploadPhase, e: UploadEvent) -> bool {
    match (p, e) {
        (UploadPhase::LookingUpMap, UploadEvent::MapLookedUp(_)) => true,
        (UploadPhase::CreatingScenario, UploadEvent::ScenarioCreated(_)) => true,
        (UploadPhase::StoringFiles, UploadEvent::FileStored(_)) => true,
        (UploadPhase::CreatingPlan, UploadEvent::PlanCreated(_)) => true,
        _ => false,
    }
}

/// One step of the creation: `t` follows `s` once `e` has come. An event
/// that does not answer the pending call changes nothing.
pub open spec fn stepped(s: ScenarioUpload, e: UploadEvent, t: ScenarioUpload) -> bool {
    if !fits(s.phase, e) {
        t == s
    } else {
        match e {
            UploadEvent::MapLookedUp(Ok(Some(id))) => t == ScenarioUpload {
                map_id: Some(id),
                phase: UploadPhase::CreatingScenario,
                ..s
            },
            UploadEvent::MapLookedUp(Ok(None)) => ends_in_error(
                s,
                t,
                "Map '"@ + (match s.map_name {
                    Some(m) => m@,
                    None => Seq::empty(),
                }) + "' not found in database"@,
            ),
            UploadEvent::MapLookedUp(Err(err)) => ends_in_error(
                s,
                t,
                "DB error looking up map: "@ + err@,
            ),
            UploadEvent::ScenarioCreated(Ok(id)) => {
                let s2 = ScenarioUpload { scenario_id: Some(id), ..s };
                if s.file_paths@.len() > 0 {
                    t == ScenarioUpload { stored: 0, phase: UploadPhase::StoringFiles, ..s2 }
                } else {
                    after_files(s2, t)
                }
            },
            UploadEvent::ScenarioCreated(Err(err)) => ends_in_error(
                s,
                t,
                "Failed to create scenario: "@ + err@,
            ),
            UploadEvent::FileStored(Ok(())) => {
                let s2 = ScenarioUpload { stored: (s.stored + 1) as usize, ..s };
                if s.stored + 1 < s.file_paths@.len() {
                    t == s2
                } else {
                    after_files(s2, t)
                }
            },
            UploadEvent::FileStored(Err(err)) => ends_in_error(
                s,
                t,
                "Failed to store "@ + s.file_paths@[s.stored as int]@ + ": "@ + err@,
            ),
            UploadEvent::PlanCreated(Ok(())) => {
                let s2 = ScenarioUpload { plan_created: true, ..s };
                only_phase(s2, t) && (t.phase matches UploadPhase::Done(r) && is_created(r, s.name))
            },
            UploadEvent::PlanCreated(Err(err)) => ends_in_error(
                s,
                t,
                "Scenario created but plan failed: "@ + err@,
            ),
        }
    }
}

/// What every state of a creation satisfies: files are stored in order
/// while there are files left, a plan is only made once a map was found
/// and every file is stored, and a scenario is only reported created once
/// every file is stored and, if its description names a map, the plan is
/// made.
pub open spec fn upload_inv(s: ScenarioUpload) -> bool {
    &&& s.stored <= s.file_paths@.len() <= usize::MAX
    &&& s.map_id is Some ==> s.map_name is Some
    &&& s.plan_created ==> s.map_id is Some && s.phase is Done
    &&& (s.phase matches UploadPhase::LookingUpMap ==> s.map_name is Some && s.map_id is None
        && s.scenario_id is None && s.stored == 0)
    &&& (s.phase matches UploadPhase::CreatingScenario ==> s.scenario_id is None && s.stored == 0
        && (s.map_name is Some ==> s.map_id is Some))
    &&& (s.phase matches UploadPhase::StoringFiles ==> s.scenario_id is Some && s.stored
        < s.file_paths@.len() && (s.map_name is Some ==> s.map_id is Some))
    &&& (s.phase matches UploadPhase::CreatingPlan ==> s.scenario_id is Some && s.map_id is Some
        && s.stored == s.file_paths@.len() && !s.plan_created)
    &&& (s.phase matches UploadPhase::Done(r) && r.status@ == "created"@ ==> s.scenario_id is Some
        && s.stored == s.file_paths@.len() && (s.map_name is Some ==> s.plan_created))
}

/// The number of calls still to make at most.
pub open spec fn remaining_steps(s: ScenarioUpload) -> int {
    match s.phase {
        UploadPhase::LookingUpMap => s.file_paths@.len() as int + 3,
        UploadPhase::CreatingScenario => s.file_paths@.len() as int + 2,
        UploadPhase::StoringFiles => s.file_paths@.len() - s.stored + 1,
        UploadPhase::CreatingPlan => 1,
        UploadPhase::Done(_) => 0,
    }
}

impl ScenarioUpload {
    /// Starts the creation of the scenario `name` whose description names
    /// the map `map_name` (if any) and whose folder holds `file_paths`:
    /// with the map lookup when a map is named, with the scenario's
    /// creation otherwise.
    pub fn start(name: String, map_name: Option<String>, file_paths: Vec<String>) -> (res: Self)
        ensures
            res.name == name,
            res.map_name == map_name,
            res.file_paths == file_paths,
            res.map_id is None,
            res.scenario_id is None,
            res.stored == 0,
            !res.plan_created,
            map_name is Some ==> res.phase matches UploadPhase::LookingUpMap,
            map_name is None ==> res.phase matches UploadPhase::CreatingScenario,
            upload_inv(res),
    {
        proof {
            // A vector's length fits in a `usize`.
            assert(file_paths@.len() == file_paths.len());
        }
        let phase = if map_name.is_some() {
            UploadPhase::LookingUpMap
        } else {
            UploadPhase::CreatingScenario
        };
        ScenarioUpload {
            name,
            map_name,
            file_paths,
            map_id: None,
            scenario_id: None,
            stored: 0,
            plan_created: false,
            phase,
        }
    }

    /// The call the current phase asks for.
    pub fn action(&self) -> (res: UploadAction)
        requires
            upload_inv(*self),
        ensures
            self.phase matches UploadPhase::LookingUpMap ==> (res matches UploadAction::LookupMap(
                m,
            ) && self.map_name == Some(m)),
            self.phase matches UploadPhase::CreatingScenario ==> res matches UploadAction::CreateScenario,
            self.phase matches UploadPhase::StoringFiles ==> (res matches UploadAction::StoreFile(
                i,
                sid,
            ) && i == self.stored && self.scenario_id == Some(sid)),
            self.phase matches UploadPhase::CreatingPlan ==> (res matches UploadAction::CreatePlan(
                n,
                mid,
                sid,
            ) && n@ == (match self.map_name {
                Some(m) => m@,
                None => "unknown"@,
            }) + "-"@ + self.name@ && self.map_id == Some(mid) && self.scenario_id == Some(sid)),
            self.phase matches UploadPhase::Done(_) ==> res matches UploadAction::Finish,
    {
        match &self.phase {
            UploadPhase::LookingUpMap => match &self.map_name {
                Some(m) => UploadAction::LookupMap(m.clone()),
                None => UploadAction::Finish,
            },
            UploadPhase::CreatingScenario => UploadAction::CreateScenario,
            UploadPhase::StoringFiles => match self.scenario_id {
                Some(sid) => UploadAction::StoreFile(self.stored, sid),
                None => UploadAction::Finish,
            },
            UploadPhase::CreatingPlan => match (self.map_id, self.scenario_id) {
                (Some(mid), Some(sid)) => {
                    let n = match &self.map_name {
                        Some(m) => plan_name(Some(m.as_str()), self.name.as_str()),
                        None => plan_name(None, self.name.as_str()),
                    };
                    UploadAction::CreatePlan(n, mid, sid)
                },
                _ => UploadAction::Finish,
            },
            UploadPhase::Done(_) => UploadAction::Finish,
        }
    }

    fn finish_files(self) -> (res: Self)
        ensures
            after_files(self, res),
    {
        if self.map_id.is_some() {
            ScenarioUpload { phase: UploadPhase::CreatingPlan, ..self }
        } else {
            let r = ScenarioUploadResult::created(self.name.clone());
            ScenarioUpload { phase: UploadPhase::Done(r), ..self }
        }
    }

    fn fail(self, msg: String) -> (res: Self)
        ensures
            ends_in_error(self, res, msg@),
            res.phase matches UploadPhase::Done(r) && r.status@ != "created"@,
    {
        proof {
            reveal_strlit("error");
            reveal_strlit("created");
            assert("error"@[0] != "created"@[0]);
        }
        let r = ScenarioUploadResult::error(self.name.clone(), msg);
        ScenarioUpload { phase: UploadPhase::Done(r), ..self }
    }

    fn fits_exec(&self, event: &UploadEvent) -> (res: bool)
        ensures
            res == fits(self.phase, *event),
    {
        match (&self.phase, event) {
            (UploadPhase::LookingUpMap, UploadEvent::MapLookedUp(_)) => true,
            (UploadPhase::CreatingScenario, UploadEvent::ScenarioCreated(_)) => true,
            (UploadPhase::StoringFiles, UploadEvent::FileStored(_)) => true,
            (UploadPhase::CreatingPlan, UploadEvent::PlanCreated(_)) => true,
            _ => false,
        }
    }

    /// Takes the outcome of the pending call.
    pub fn step(self, event: UploadEvent) -> (res: Self)
        requires
            upload_inv(self),
        ensures
            stepped(self, event, res),
            upload_inv(res),
    {
        if !self.fits_exec(&event) {
            return self;
        }
        match event {
            UploadEvent::MapLookedUp(r) => match r {
                Ok(Some(id)) => ScenarioUpload {
                    map_id: Some(id),
                    phase: UploadPhase::CreatingScenario,
                    ..self
                },
                Ok(None) => {
                    let mut m = String::from_str("Map '");
                    match &self.map_name {
                        Some(n) => m.append(n.as_str()),
                        None => {},
                    }
                    m.append("' not found in database");
                    self.fail(m)
                },
                Err(e) => {
                    let mut m = String::from_str("DB error looking up map: ");
                    m.append(e.as_str());
                    self.fail(m)
                },
            },
            UploadEvent::ScenarioCreated(r) => match r {
                Ok(id) => {
                    let s2 = ScenarioUpload { scenario_id: Some(id), ..self };
                    if s2.file_paths.len() > 0 {
                        ScenarioUpload { stored: 0, phase: UploadPhase::StoringFiles, ..s2 }
                    } else {
                        s2.finish_files()
                    }
                },
                Err(e) => {
                    let mut m = String::from_str("Failed to create scenario: ");
                    m.append(e.as_str());
                    self.fail(m)
                },
            },
            UploadEvent::FileStored(r) => match r {
                Ok(()) => {
                    assert(self.phase is StoringFiles);
                    let s2 = ScenarioUpload { stored: self.stored + 1, ..self };
                    if s2.stored < s2.file_paths.len() {
                        s2
                    } else {
                        s2.finish_files()
                    }
                },
                Err(e) => {
                    assert(self.phase is StoringFiles);
                    let mut m = String::from_str("Failed to store ");
                    m.append(self.file_paths[self.stored].as_str());
                    m.append(": ");
                    m.append(e.as_str());
                    self.fail(m)
                },
            },
            UploadEvent::PlanCreated(r) => match r {
                Ok(()) => {
                    let res = ScenarioUploadResult::created(self.name.clone());
                    ScenarioUpload { plan_created: true, phase: UploadPhase::Done(res), ..self }
                },
                Err(e) => {
                    let mut m = String::from_str("Scenario created but plan failed: ");
                    m.append(e.as_str());
                    self.fail(m)
                },
            },
        }
    }

    /// The result of a finished creation.
    pub fn into_result(self) -> (res: Option<ScenarioUploadResult>)
        ensures
            self.phase matches UploadPhase::Done(r) ==> res == Some(r),
            !(self.phase is Done) ==> res is None,
    {
        match self.phase {
            UploadPhase::Done(r) => Some(r),
            _ => None,
        }
    }
}

/// Every step keeps the invariant: in particular a scenario is never
/// reported created before all of its files are stored and, when its
/// description names a map, its plan is made.
pub proof fn lemma_step_keeps_invariant(s: ScenarioUpload, e: UploadEvent, t: ScenarioUpload)
    requires
        upload_inv(s),
        stepped(s, e, t),
    ensures
        upload_inv(t),
{
    reveal_strlit("error");
    reveal_strlit("created");
    assert("error"@[0] != "created"@[0]);
}

/// Every answered call brings the creation closer to its end: a creation
/// with `n` files takes at most `n + 3` calls.
pub proof fn lemma_step_progress(s: ScenarioUpload, e: UploadEvent, t: ScenarioUpload)
    requires
        upload_inv(s),
        fits(s.phase, e),
        stepped(s, e, t),
    ensures
        0 <= remaining_steps(t) < remaining_steps(s),
{
}

} // verus!
