use berrycode::log_relay::{classify, LogSeverity, LogStream};
use berrycode::model_preview::{ply_topology_checked, ply_topology_ok_of};
use berrycode::one_click::{pick_ios_simulator, read_bundle_id_from_mobile_toml, runtime_newer, version_of};
use berrycode::probe::{parse_simctl_listing, SimctlDevice, SimctlRuntime};
use berrycode::project_emit::{emit_xcode_project, plan_emit};

#[test]
fn tracing_words_rank_before_apple_markers() {
    assert_eq!(classify("INFO <Warning>: slow"), LogSeverity::Info);
    assert_eq!(classify("ERROR <Warning>: slow"), LogSeverity::Error);
    assert_eq!(classify("2026-04-29 10:00:00.000  <Warning>: Slow operation"), LogSeverity::Warn);
}

#[test]
fn a_stream_capped_at_zero_keeps_nothing() {
    let mut s = LogStream::new(0);
    s.push_line("INFO hello".to_string());
    s.push_line("WARN again".to_string());
    assert_eq!(s.len(), 0);
    let mut one = LogStream::new(1);
    one.push_line("a".to_string());
    one.push_line("b".to_string());
    assert_eq!(one.len(), 1);
    assert_eq!(one.iter().next().unwrap().text, "b");
}

fn device(udid: &str) -> SimctlDevice {
    SimctlDevice {
        udid: Some(udid.to_string()),
        name: Some("iPhone".to_string()),
        state: Some("Shutdown".to_string()),
        is_available: Some(true),
    }
}

#[test]
fn the_newest_runtime_is_compared_by_version_numbers() {
    assert_eq!(version_of("com.apple.CoreSimulator.SimRuntime.iOS-17-5"), vec![17, 5]);
    assert!(runtime_newer("com.apple.CoreSimulator.SimRuntime.iOS-9-3", "com.apple.CoreSimulator.SimRuntime.iOS-17-5"));
    assert!(!runtime_newer("com.apple.CoreSimulator.SimRuntime.iOS-17-5", "com.apple.CoreSimulator.SimRuntime.iOS-17-5"));
    let runtimes = vec![
        SimctlRuntime { key: "com.apple.CoreSimulator.SimRuntime.iOS-9-3".to_string(), devices: Some(vec![device("old")]) },
        SimctlRuntime { key: "com.apple.CoreSimulator.SimRuntime.iOS-17-5".to_string(), devices: Some(vec![device("new")]) },
    ];
    assert_eq!(pick_ios_simulator(&runtimes).unwrap(), "new");
}

#[test]
fn the_simctl_listing_is_read_from_json() {
    let json = r#"{"devices":{"com.apple.CoreSimulator.SimRuntime.iOS-17-5":[{"udid":"U1","name":"iPhone 15","state":"Booted","isAvailable":true},{"name":3}],"x":5}}"#;
    let rs = parse_simctl_listing(json).unwrap().unwrap();
    assert_eq!(rs.len(), 2);
    let ios = rs.iter().find(|r| r.key.ends_with("iOS-17-5")).unwrap();
    let ds = ios.devices.as_ref().unwrap();
    assert_eq!(ds[0].udid.as_deref(), Some("U1"));
    assert_eq!(ds[0].is_available, Some(true));
    assert_eq!(ds[1].name, None);
    assert!(rs.iter().find(|r| r.key == "x").unwrap().devices.is_none());
    assert!(parse_simctl_listing("{}").unwrap().is_none());
    assert!(parse_simctl_listing("not json").is_err());
}

#[test]
fn bundle_id_needs_an_app_table() {
    assert_eq!(read_bundle_id_from_mobile_toml("app = \"com.example\"\n"), None);
    assert_eq!(
        read_bundle_id_from_mobile_toml("[other]\nx = 1\n[app]\nidentifier = \"com.example.x\"\n"),
        Some("com.example.x".to_string())
    );
}

#[test]
fn a_second_emit_pass_creates_nothing() {
    let files = emit_xcode_project("/p", "com.example.app", "ABCDE12345", "Demo");
    let first = plan_emit(&files, &vec![false; files.len()]);
    assert_eq!(first.created.len(), files.len());
    assert!(first.preserved.is_empty());
    let second = plan_emit(&files, &vec![true; files.len()]);
    assert!(second.created.is_empty());
    assert_eq!(second.preserved, first.created);
    let mixed = plan_emit(&files, &(0..files.len()).map(|i| i % 2 == 0).collect::<Vec<bool>>());
    assert_eq!(mixed.created.len() + mixed.preserved.len(), files.len());
}

#[test]
fn a_ply_with_an_overflowing_face_count_is_refused() {
    let bad = format!(
        "ply\nformat ascii 1.0\nelement vertex 0\nelement face 1\nproperty list uchar int vertex_indices\nend_header\n{} 0 1 2\n",
        usize::MAX
    );
    assert!(!ply_topology_ok_of(bad.as_bytes()));
    assert!(ply_topology_checked("bad.ply", bad.as_bytes()).is_none());
    let good = b"ply\nformat ascii 1.0\nelement vertex 3\nelement face 1\nproperty float x\nend_header\n0 0 0\n1 0 0\n0 1 0\n3 0 1 2\n";
    assert!(ply_topology_ok_of(good));
    let (info, edges) = ply_topology_checked("tri.ply", good).unwrap().unwrap();
    assert_eq!(info.triangle_count, 1);
    assert_eq!(edges.len(), 3);
    assert!(ply_topology_checked("x.ply", b"no header").unwrap().is_none());
}
