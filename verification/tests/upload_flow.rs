use manager::entity::enums::ScenarioFormat;
use manager::http::handlers::upload_flow::{ScenarioUpload, UploadAction, UploadEvent, UploadPhase};
use manager::http::handlers::upload_form::{form_field, FormField, UploadForm};

fn paths(ps: &[&str]) -> Vec<String> {
    ps.iter().map(|p| p.to_string()).collect()
}

fn result_of(s: ScenarioUpload) -> (String, String, Option<String>) {
    let r = s.into_result().expect("finished");
    (r.name, r.status, r.message)
}

#[test]
fn scenario_with_map_walks_every_step() {
    let mut s = ScenarioUpload::start(
        "cut_in".to_string(),
        Some("Town01".to_string()),
        paths(&["cut_in.xosc", "spec.yaml"]),
    );
    match s.action() {
        UploadAction::LookupMap(m) => assert_eq!(m, "Town01"),
        _ => panic!("expected a map lookup"),
    }
    s = s.step(UploadEvent::MapLookedUp(Ok(Some(7))));
    assert!(matches!(s.action(), UploadAction::CreateScenario));
    s = s.step(UploadEvent::ScenarioCreated(Ok(42)));
    assert!(matches!(s.action(), UploadAction::StoreFile(0, 42)));
    s = s.step(UploadEvent::FileStored(Ok(())));
    assert!(matches!(s.action(), UploadAction::StoreFile(1, 42)));
    s = s.step(UploadEvent::FileStored(Ok(())));
    match s.action() {
        UploadAction::CreatePlan(n, mid, sid) => {
            assert_eq!(n, "Town01-cut_in");
            assert_eq!(mid, 7);
            assert_eq!(sid, 42);
        }
        _ => panic!("expected the plan"),
    }
    s = s.step(UploadEvent::PlanCreated(Ok(())));
    assert!(matches!(s.action(), UploadAction::Finish));
    assert!(s.plan_created);
    assert_eq!(result_of(s), ("cut_in".to_string(), "created".to_string(), None));
}

#[test]
fn scenario_without_map_skips_lookup_and_plan() {
    let mut s = ScenarioUpload::start("solo".to_string(), None, paths(&["a.xosc"]));
    assert!(matches!(s.action(), UploadAction::CreateScenario));
    s = s.step(UploadEvent::ScenarioCreated(Ok(3)));
    assert!(matches!(s.action(), UploadAction::StoreFile(0, 3)));
    s = s.step(UploadEvent::FileStored(Ok(())));
    assert!(matches!(s.phase, UploadPhase::Done(_)));
    assert!(!s.plan_created);
    assert_eq!(result_of(s), ("solo".to_string(), "created".to_string(), None));
}

#[test]
fn scenario_without_files_is_created_at_once() {
    let mut s = ScenarioUpload::start("empty".to_string(), None, vec![]);
    s = s.step(UploadEvent::ScenarioCreated(Ok(1)));
    assert_eq!(result_of(s), ("empty".to_string(), "created".to_string(), None));
}

#[test]
fn missing_map_ends_with_error() {
    let mut s = ScenarioUpload::start("x".to_string(), Some("Nowhere".to_string()), paths(&["a.xosc"]));
    s = s.step(UploadEvent::MapLookedUp(Ok(None)));
    assert!(matches!(s.action(), UploadAction::Finish));
    assert_eq!(
        result_of(s),
        (
            "x".to_string(),
            "error".to_string(),
            Some("Map 'Nowhere' not found in database".to_string())
        )
    );
}

#[test]
fn map_lookup_failure_ends_with_error() {
    let mut s = ScenarioUpload::start("x".to_string(), Some("M".to_string()), paths(&["a.xosc"]));
    s = s.step(UploadEvent::MapLookedUp(Err("connection reset".to_string())));
    assert_eq!(
        result_of(s),
        (
            "x".to_string(),
            "error".to_string(),
            Some("DB error looking up map: connection reset".to_string())
        )
    );
}

#[test]
fn scenario_creation_failure_ends_with_error() {
    let mut s = ScenarioUpload::start("x".to_string(), None, paths(&["a.xosc"]));
    s = s.step(UploadEvent::ScenarioCreated(Err("duplicate".to_string())));
    assert_eq!(
        result_of(s),
        ("x".to_string(), "error".to_string(), Some("Failed to create scenario: duplicate".to_string()))
    );
}

#[test]
fn file_failure_names_the_file() {
    let mut s = ScenarioUpload::start("x".to_string(), None, paths(&["a.xosc", "b/road.xodr"]));
    s = s.step(UploadEvent::ScenarioCreated(Ok(9)));
    s = s.step(UploadEvent::FileStored(Ok(())));
    s = s.step(UploadEvent::FileStored(Err("disk full".to_string())));
    assert_eq!(
        result_of(s),
        ("x".to_string(), "error".to_string(), Some("Failed to store b/road.xodr: disk full".to_string()))
    );
}

#[test]
fn plan_failure_ends_with_error() {
    let mut s = ScenarioUpload::start("x".to_string(), Some("M".to_string()), paths(&["a.xosc"]));
    s = s.step(UploadEvent::MapLookedUp(Ok(Some(1))));
    s = s.step(UploadEvent::ScenarioCreated(Ok(2)));
    s = s.step(UploadEvent::FileStored(Ok(())));
    s = s.step(UploadEvent::PlanCreated(Err("conflict".to_string())));
    assert_eq!(
        result_of(s),
        ("x".to_string(), "error".to_string(), Some("Scenario created but plan failed: conflict".to_string()))
    );
}

#[test]
fn event_out_of_turn_changes_nothing() {
    let s = ScenarioUpload::start("x".to_string(), None, paths(&["a.xosc"]));
    let s = s.step(UploadEvent::PlanCreated(Ok(())));
    assert!(matches!(s.phase, UploadPhase::CreatingScenario));
    assert!(s.into_result().is_none());
}

#[test]
fn steps_are_bounded_by_files_plus_three() {
    let files = paths(&["a", "b", "c", "d"]);
    let n = files.len();
    let mut s = ScenarioUpload::start("x".to_string(), Some("M".to_string()), files);
    let mut calls = 0;
    loop {
        let ev = match s.action() {
            UploadAction::LookupMap(_) => UploadEvent::MapLookedUp(Ok(Some(1))),
            UploadAction::CreateScenario => UploadEvent::ScenarioCreated(Ok(2)),
            UploadAction::StoreFile(_, _) => UploadEvent::FileStored(Ok(())),
            UploadAction::CreatePlan(_, _, _) => UploadEvent::PlanCreated(Ok(())),
            UploadAction::Finish => break,
        };
        s = s.step(ev);
        calls += 1;
    }
    assert_eq!(calls, n + 3);
}

#[test]
fn form_fields_by_name() {
    assert!(form_field("file") == FormField::File);
    assert!(form_field("format") == FormField::Format);
    assert!(form_field("other") == FormField::Other);
    assert!(form_field("") == FormField::Other);
}

#[test]
fn form_defaults_to_open_scenario1() {
    let mut f = UploadForm::new();
    f.set_file(vec![1, 2, 3]);
    let (bytes, format) = f.finish().unwrap();
    assert_eq!(bytes, vec![1, 2, 3]);
    assert_eq!(format, ScenarioFormat::OpenScenario1);
}

#[test]
fn form_takes_format_and_last_file() {
    let mut f = UploadForm::new();
    f.set_file(vec![1]);
    assert!(f.set_format("carla_lb_route").is_ok());
    f.set_file(vec![2]);
    let (bytes, format) = f.finish().unwrap();
    assert_eq!(bytes, vec![2]);
    assert_eq!(format, ScenarioFormat::CarlaLbRoute);
}

#[test]
fn form_refuses_unknown_format() {
    let mut f = UploadForm::new();
    assert!(f.set_format("open_scenario2").is_ok());
    assert_eq!(f.set_format("xml"), Err("Unknown format: xml".to_string()));
    assert_eq!(f.format, ScenarioFormat::OpenScenario2);
}

#[test]
fn form_without_file_is_refused() {
    let f = UploadForm::new();
    assert_eq!(f.finish().err(), Some("No file uploaded".to_string()));
}
