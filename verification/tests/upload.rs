use std::io::Write;

use manager::entity::enums::ScenarioFormat;
use manager::http::handlers::archive::{archive_len, entry_paths, open_archive, read_entry, scan_archive};
use manager::http::handlers::upload::{
    check_scenario_files, detect_wrapper_dir, is_spec_file, map_not_found_message,
    parse_scenario_format, parse_zip_entry, plan_name, scenario_display_name, ScenarioFiles,
    ScenarioUploadResult, SpecsByFolder, UploadResult,
};

fn comps(p: &str) -> Vec<String> {
    p.split('/').map(|s| s.to_string()).collect()
}

fn build_zip(entries: &[(&str, &[u8])], dirs: &[&str]) -> Vec<u8> {
    let mut w = zip::ZipWriter::new(std::io::Cursor::new(Vec::new()));
    let opts: zip::write::SimpleFileOptions = zip::write::SimpleFileOptions::default();
    for d in dirs {
        w.add_directory(*d, opts).unwrap();
    }
    for (name, data) in entries {
        w.start_file(*name, opts).unwrap();
        w.write_all(data).unwrap();
    }
    w.finish().unwrap().into_inner()
}

#[test]
fn parse_entry_without_wrapper() {
    assert_eq!(
        parse_zip_entry(&comps("scenA/Catalogs/Vehicles.xosc"), None),
        Some(("scenA".to_string(), "Catalogs/Vehicles.xosc".to_string()))
    );
    assert_eq!(parse_zip_entry(&comps("scenA/spec.yaml"), None), Some(("scenA".to_string(), "spec.yaml".to_string())));
    assert_eq!(parse_zip_entry(&comps("toplevel.txt"), None), None);
    assert_eq!(parse_zip_entry(&vec![], None), None);
}

#[test]
fn parse_entry_with_wrapper() {
    assert_eq!(
        parse_zip_entry(&comps("00-2/scenA/a/b/c.xosc"), Some("00-2")),
        Some(("scenA".to_string(), "a/b/c.xosc".to_string()))
    );
    assert_eq!(parse_zip_entry(&comps("other/scenA/x.xosc"), Some("00-2")), None);
    assert_eq!(parse_zip_entry(&comps("00-2/readme"), Some("00-2")), None);
    assert_eq!(parse_zip_entry(&vec![], Some("00-2")), None);
}

#[test]
fn wrapper_detection() {
    let paths = vec![comps("foo/scenarioA/a.xosc"), comps("foo/scenarioB/b.xosc")];
    assert_eq!(detect_wrapper_dir(&paths), Some("foo".to_string()));
    let flat = vec![comps("scenarioA/a.xosc"), comps("scenarioB/b.xosc")];
    assert_eq!(detect_wrapper_dir(&flat), None);
    let short = vec![comps("foo/a.xosc"), comps("foo")];
    assert_eq!(detect_wrapper_dir(&short), None);
    assert_eq!(detect_wrapper_dir(&vec![]), None);
    // A single scenario folder looks like a wrapper of its own files.
    assert_eq!(detect_wrapper_dir(&vec![comps("scenA/a.xosc")]), Some("scenA".to_string()));
}

#[test]
fn format_names() {
    assert_eq!(parse_scenario_format("open_scenario1").ok(), Some(ScenarioFormat::OpenScenario1));
    assert_eq!(parse_scenario_format("open_scenario2").ok(), Some(ScenarioFormat::OpenScenario2));
    assert_eq!(parse_scenario_format("carla_lb_route").ok(), Some(ScenarioFormat::CarlaLbRoute));
    assert_eq!(parse_scenario_format("osc3").unwrap_err(), "Unknown format: osc3");
}

#[test]
fn spec_file_name() {
    assert!(is_spec_file("spec.yaml"));
    assert!(!is_spec_file("sub/spec.yaml"));
    assert!(!is_spec_file("spec.yml"));
}

#[test]
fn grouping_by_folder() {
    let mut files = ScenarioFiles::new();
    files.push_file("b".into(), "1.xosc".into(), vec![1]);
    files.push_file("a".into(), "spec.yaml".into(), vec![2]);
    files.push_file("b".into(), "2.txt".into(), vec![3]);
    let b = files.get("b").unwrap();
    assert_eq!(b, &vec![("1.xosc".to_string(), vec![1]), ("2.txt".to_string(), vec![3])]);
    assert_eq!(files.get("a").unwrap(), &vec![("spec.yaml".to_string(), vec![2])]);
    assert!(files.get("c").is_none());
}

#[test]
fn specs_replace_by_folder() {
    let mut specs: SpecsByFolder<u32> = SpecsByFolder::new();
    specs.insert("x".into(), 1);
    specs.insert("y".into(), 2);
    specs.insert("x".into(), 3);
    assert_eq!(specs.len(), 2);
    let (f0, v0) = specs.entry(0);
    assert_eq!((f0.as_str(), *v0), ("x", 3));
    let (f1, v1) = specs.entry(1);
    assert_eq!((f1.as_str(), *v1), ("y", 2));
}

fn status_of(r: &Option<ScenarioUploadResult>) -> Option<(String, String, Option<String>)> {
    r.as_ref().map(|r| (r.name.clone(), r.status.clone(), r.message.clone()))
}

#[test]
fn scenario_file_checks() {
    let name = "cut-in".to_string();
    assert_eq!(
        status_of(&check_scenario_files(&name, None)),
        Some(("cut-in".to_string(), "skipped".to_string(), Some("No files in folder".to_string())))
    );
    let no_xosc = vec![("spec.yaml".to_string(), vec![])];
    assert_eq!(
        status_of(&check_scenario_files(&name, Some(&no_xosc))),
        Some(("cut-in".to_string(), "skipped".to_string(), Some("No .xosc file found".to_string())))
    );
    let ok = vec![("spec.yaml".to_string(), vec![]), ("sub/s.xosc".to_string(), vec![1])];
    assert!(check_scenario_files(&name, Some(&ok)).is_none());
}

#[test]
fn names_and_messages() {
    assert_eq!(scenario_display_name(&"folder".to_string(), &None), "folder");
    assert_eq!(scenario_display_name(&"folder".to_string(), &Some("nice".to_string())), "nice");
    assert_eq!(map_not_found_message("Town05"), "Map 'Town05' not found in database");
    assert_eq!(plan_name(Some("Town05"), "cut-in"), "Town05-cut-in");
    assert_eq!(plan_name(None, "cut-in"), "unknown-cut-in");
    let c = ScenarioUploadResult::created("s".into());
    assert_eq!((c.status.as_str(), c.message), ("created", None));
    let e = ScenarioUploadResult::error("s".into(), "boom".into());
    assert_eq!((e.status.as_str(), e.message.as_deref()), ("error", Some("boom")));
    let r = UploadResult::new(vec![ScenarioUploadResult::created("a".into()), ScenarioUploadResult::created("b".into())]);
    assert_eq!(r.total, 2);
}

#[test]
fn archive_reading() {
    let bytes = build_zip(
        &[("wrap/s1/spec.yaml", b"scenario_name: one\n"), ("wrap/s1/a.xosc", b"<xosc/>"), ("wrap/s2/x/b.xosc", b"b")],
        &["wrap/s1/sub/"],
    );
    let mut a = open_archive(bytes).ok().unwrap();
    assert_eq!(archive_len(&a), 4);
    let paths = entry_paths(&mut a);
    assert_eq!(paths, vec![comps("wrap/s1/spec.yaml"), comps("wrap/s1/a.xosc"), comps("wrap/s2/x/b.xosc")]);
    let wrapper = detect_wrapper_dir(&paths);
    assert_eq!(wrapper.as_deref(), Some("wrap"));
    // Entry 0 is the directory.
    assert_eq!(read_entry(&mut a, 0, wrapper.as_deref()).ok().unwrap(), None);
    assert_eq!(
        read_entry(&mut a, 1, wrapper.as_deref()).ok().unwrap(),
        Some(("s1".to_string(), "spec.yaml".to_string(), b"scenario_name: one\n".to_vec()))
    );
    assert_eq!(
        read_entry(&mut a, 3, wrapper.as_deref()).ok().unwrap(),
        Some(("s2".to_string(), "x/b.xosc".to_string(), b"b".to_vec()))
    );
    let e = read_entry(&mut a, 99, None).unwrap_err();
    assert!(e.starts_with("Zip read error: "));
}

#[test]
fn invalid_archive_is_refused() {
    let e = open_archive(b"not a zip".to_vec()).err().unwrap();
    assert!(e.starts_with("Invalid zip file: "));
    let expected = zip::ZipArchive::new(std::io::Cursor::new(b"not a zip".to_vec())).err().unwrap().to_string();
    assert_eq!(e, format!("Invalid zip file: {expected}"));
}

#[test]
fn archive_scan_groups_files_and_descriptions() {
    let bytes = build_zip(
        &[
            ("wrap/s1/spec.yaml", b"scenario_name: one\n"),
            ("wrap/s1/a.xosc", b"<xosc/>"),
            ("wrap/s2/x/b.xosc", b"b"),
            ("wrap/s2/spec.yaml", b"map_name: Town01\n"),
            ("wrap/readme.txt", b"top"),
        ],
        &["wrap/s1/sub/"],
    );
    let mut a = open_archive(bytes).ok().unwrap();
    let scan = scan_archive(&mut a, Some("wrap"));
    assert!(scan.failure.is_none());
    assert_eq!(
        scan.specs,
        vec![
            ("s1".to_string(), b"scenario_name: one\n".to_vec()),
            ("s2".to_string(), b"map_name: Town01\n".to_vec()),
        ]
    );
    assert_eq!(
        scan.files.get("s1").unwrap(),
        &vec![
            ("spec.yaml".to_string(), b"scenario_name: one\n".to_vec()),
            ("a.xosc".to_string(), b"<xosc/>".to_vec()),
        ]
    );
    assert_eq!(
        scan.files.get("s2").unwrap(),
        &vec![
            ("x/b.xosc".to_string(), b"b".to_vec()),
            ("spec.yaml".to_string(), b"map_name: Town01\n".to_vec()),
        ]
    );
    assert!(scan.files.get("readme.txt").is_none());
}

#[test]
fn archive_scan_stops_at_unreadable_entry() {
    let mut w = zip::ZipWriter::new(std::io::Cursor::new(Vec::new()));
    let opts: zip::write::SimpleFileOptions =
        zip::write::SimpleFileOptions::default().compression_method(zip::CompressionMethod::Stored);
    for (name, data) in [
        ("s1/spec.yaml", &b"scenario_name: one\n"[..]),
        ("s1/a.xosc", &b"CORRUPT-ME-PLEASE"[..]),
        ("s2/spec.yaml", &b"scenario_name: two\n"[..]),
    ] {
        w.start_file(name, opts).unwrap();
        w.write_all(data).unwrap();
    }
    let mut bytes = w.finish().unwrap().into_inner();
    let needle = b"CORRUPT-ME-PLEASE";
    let at = bytes.windows(needle.len()).position(|x| x == needle).unwrap();
    bytes[at] = b'X';
    let mut a = open_archive(bytes).ok().unwrap();
    let scan = scan_archive(&mut a, None);
    let failure = scan.failure.unwrap();
    assert!(failure.starts_with("Failed to read a.xosc in s1: "), "{failure}");
    assert!(failure.len() > "Failed to read a.xosc in s1: ".len());
    assert_eq!(scan.specs, vec![("s1".to_string(), b"scenario_name: one\n".to_vec())]);
    assert_eq!(
        scan.files.get("s1").unwrap(),
        &vec![("spec.yaml".to_string(), b"scenario_name: one\n".to_vec())]
    );
    assert!(scan.files.get("s2").is_none());
}
