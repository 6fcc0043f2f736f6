use berrycode::completion::{
    apply_completion, completion_frame, completion_icon, current_word, filter_completions,
    short_detail, CompletionFrame, CompletionItem, CompletionKeys,
};
use berrycode::definition::{fallback_definition_line, line_declares};
use berrycode::git_view::{diff_line_number, diff_line_style, diff_status_color, graph_color};
use berrycode::i18n::{t, LangCatalog, LangFile, UiLanguage};
use berrycode::inlay_hints::{hints_for_line, inlay_request_due, label_from_parts, InlayHint};
use berrycode::minimap::{minimap_line, minimap_rows, MinimapKind};
use berrycode::mobile_toolchain::{
    build_doctor_report, build_target, format_one_click_err, short_id, MobilePlatform,
    OneClickStageLabel, RunTargetSelection,
};
use berrycode::mobile_types::{
    AndroidInstall, MobileToolchain, NdkInstall, SimFamily, SimState, Simulator, XcodeInstall,
};
use berrycode::model_preview::{
    binary_face_edges, calculate_property_offsets, find_property_offset, ply_header, ply_topology,
    read_u32_le, stl_is_binary, stl_topology,
};
use berrycode::one_click::{OneClickError, OneClickStage};
use berrycode::probe::{locate_ndk, probe_adb_devices, probe_android, probe_rust_targets, probe_xcode};
use berrycode::runner::MobileTarget;

fn item(label: &str, insert: Option<&str>) -> CompletionItem {
    CompletionItem {
        label: label.to_string(),
        kind: "Function".to_string(),
        detail: None,
        insert_text: insert.map(|s| s.to_string()),
    }
}

fn keys() -> CompletionKeys {
    CompletionKeys { escape: false, down: false, up: false, accept: false, click_outside: false }
}

#[test]
fn current_word_is_identifier_before_cursor_lowercased() {
    assert_eq!(current_word("let FooBar", 10), "foobar");
    assert_eq!(current_word("x.len", 2), "");
    assert_eq!(current_word("a_b c", 3), "a_b");
}

#[test]
fn completions_filter_by_lowercase_prefix() {
    let items = vec![item("Vec", None), item("vector", None), item("HashMap", None)];
    let out = filter_completions(&items, "ve");
    let labels: Vec<&str> = out.iter().map(|c| c.label.as_str()).collect();
    assert_eq!(labels, vec!["Vec", "vector"]);
    assert_eq!(filter_completions(&items, "").len(), 3);
}

#[test]
fn completion_frame_moves_and_accepts() {
    let items = vec![item("a", None), item("b", Some("b()")), item("c", None)];
    let mut k = keys();
    k.down = true;
    assert!(matches!(completion_frame(&items, 0, k), CompletionFrame::Show(1)));
    assert!(matches!(completion_frame(&items, 2, k), CompletionFrame::Show(2)));
    let mut up = keys();
    up.up = true;
    assert!(matches!(completion_frame(&items, 0, up), CompletionFrame::Show(0)));
    assert!(matches!(completion_frame(&items, 7, keys()), CompletionFrame::Show(0)));
    let mut acc = keys();
    acc.accept = true;
    match completion_frame(&items, 1, acc) {
        CompletionFrame::Accept(t) => assert_eq!(t, "b()"),
        other => panic!("expected accept, got {:?}", other),
    }
    acc.click_outside = true;
    assert!(matches!(completion_frame(&items, 1, acc), CompletionFrame::Dismiss));
    let mut esc = keys();
    esc.escape = true;
    assert!(matches!(completion_frame(&items, 1, esc), CompletionFrame::Dismiss));
    assert!(matches!(completion_frame(&Vec::new(), 0, keys()), CompletionFrame::Dismiss));
}

#[test]
fn applying_completion_replaces_word_and_moves_cursor() {
    let (text, line, col) = apply_completion("fn main() {\n    pri\n}", 19, "println!");
    assert_eq!(text, "fn main() {\n    println!\n}");
    assert_eq!((line, col), (1, 12));
}

#[test]
fn detail_is_shortened_after_thirty_bytes() {
    assert_eq!(short_detail("fn(x: i32)"), "fn(x: i32)");
    assert_eq!(
        short_detail("fn(a: usize, b: usize, c: usize) -> usize"),
        "fn(a: usize, b: usize, c: u..."
    );
}

#[test]
fn completion_icons_follow_kind() {
    let (i, c) = completion_icon("Struct");
    assert_eq!(i, "S");
    assert_eq!((c.r, c.g, c.b), (240, 200, 80));
    assert_eq!(completion_icon("Trait").0, "T");
    assert_eq!(completion_icon("Snippet").0, "a");
}

#[test]
fn fallback_definition_finds_first_declaring_line() {
    let text = "use foo;\nlet x = helper(1);\npub fn helper(n: u32) -> u32 {\n    n\n}\n";
    assert_eq!(fallback_definition_line(text, "helper"), Some(2));
    assert_eq!(fallback_definition_line(text, "missing"), None);
    assert!(line_declares("impl Display for Thing {", "Thing"));
    assert!(line_declares("struct Point<T> {", "Point"));
    assert!(!line_declares("let Point = 3;", "Point"));
}

#[test]
fn diff_view_styles_lines() {
    let add = diff_line_style('+');
    assert_eq!(add.prefix, "+");
    assert!(add.background.is_some());
    let ctx = diff_line_style(' ');
    assert_eq!(ctx.prefix, " ");
    assert!(ctx.background.is_none());
    assert_eq!(diff_line_number('-', Some(7), Some(9)), "   7");
    assert_eq!(diff_line_number('+', Some(7), Some(12345)), "12345");
    assert_eq!(diff_line_number('+', None, None), "    ");
    let red = diff_status_color("deleted").unwrap();
    assert_eq!((red.r, red.g, red.b), (255, 100, 100));
    assert!(diff_status_color("renamed").is_none());
    let c = graph_color(9);
    assert_eq!((c.r, c.g, c.b), (100, 181, 246));
}

#[test]
fn translation_falls_back_to_english() {
    let catalog = LangCatalog {
        locales: vec![(
            "ja_JP".to_string(),
            LangFile { entries: vec![("Save".to_string(), "保存".to_string())] },
        )],
    };
    assert_eq!(t(UiLanguage::Japanese, "Save", &catalog), "保存");
    assert_eq!(t(UiLanguage::Japanese, "Open", &catalog), "Open");
    assert_eq!(t(UiLanguage::English, "Save", &catalog), "Save");
    assert_eq!(t(UiLanguage::Korean, "Save", &catalog), "Save");
}

#[test]
fn inlay_hints_are_requested_for_rust_files_once_a_second() {
    assert!(inlay_request_due(true, true, None, Some("src/main.rs")));
    assert!(!inlay_request_due(true, true, Some(500), Some("src/main.rs")));
    assert!(inlay_request_due(true, true, Some(1001), Some("src/main.rs")));
    assert!(!inlay_request_due(true, true, None, Some("README.md")));
    assert!(!inlay_request_due(true, false, None, Some("a.rs")));
    assert!(!inlay_request_due(true, true, None, None));
}

#[test]
fn inlay_hints_for_a_line() {
    let hints = vec![
        InlayHint { line: 1, column: 4, label: ": i32".to_string(), kind: "type" },
        InlayHint { line: 2, column: 0, label: "x:".to_string(), kind: "parameter" },
        InlayHint { line: 1, column: 9, label: ": bool".to_string(), kind: "type" },
    ];
    let on1 = hints_for_line(true, &hints, 1);
    assert_eq!(on1.len(), 2);
    assert_eq!(on1[1], (9, ": bool".to_string(), "type"));
    assert!(hints_for_line(false, &hints, 1).is_empty());
    assert_eq!(label_from_parts(&vec!["a".to_string(), "bc".to_string()]), "abc");
}

#[test]
fn minimap_classifies_lines() {
    assert_eq!(minimap_line("    // note"), Some((4, 7, MinimapKind::Comment)));
    assert_eq!(minimap_line("pub fn go() {"), Some((0, 13, MinimapKind::Declaration)));
    assert_eq!(minimap_line("  x += 1;"), Some((2, 7, MinimapKind::Code)));
    assert_eq!(minimap_line("   "), None);
    assert_eq!(minimap_rows(""), 1);
    assert_eq!(minimap_rows("a\nb\nc"), 3);
}

fn toolchain_all_good() -> MobileToolchain {
    MobileToolchain {
        xcode: Some(XcodeInstall {
            developer_dir: "/Applications/Xcode.app/Contents/Developer".to_string(),
            version: "Xcode 16.4".to_string(),
            sdks: vec!["iOS 18.5".to_string()],
            simulators: vec![Simulator {
                udid: "U1".to_string(),
                name: "iPhone 16".to_string(),
                runtime: "iOS 18.5".to_string(),
                state: SimState::Shutdown,
                family: SimFamily::Ios,
            }],
            codesign_identities: Vec::new(),
        }),
        android: Some(AndroidInstall {
            sdk_root: "/opt/sdk".to_string(),
            ndk: Some(NdkInstall { root: "/opt/sdk/ndk/27.0".to_string(), version: "27.0.1".to_string() }),
            platforms: vec![34],
            build_tools: vec!["34.0.0".to_string()],
            adb: Some("/opt/sdk/platform-tools/adb".to_string()),
            devices: Vec::new(),
        }),
        rust_targets: vec![
            "aarch64-apple-ios".to_string(),
            "aarch64-apple-ios-sim".to_string(),
            "aarch64-linux-android".to_string(),
            "aarch64-apple-visionos".to_string(),
        ],
        last_probed: None,
    }
}

#[test]
fn doctor_report_all_clear() {
    let r = build_doctor_report(&toolchain_all_good(), "/proj", true, true, true);
    assert!(r.starts_with("# BerryCode Mobile Doctor\n\n## Xcode\n- ✓ Xcode Xcode 16.4\n"));
    assert!(r.contains("- Simulators: 1 iOS, 0 visionOS\n"));
    assert!(r.contains("- ✓ visionOS (aarch64-apple-visionos)\n"));
    assert!(r.contains("- ✓ mobile.toml (/proj/mobile.toml)\n"));
    assert!(r.contains("✓ All checks passed"));
    assert!(r.contains("## Next steps\n1. (optional, real-device only)"));
}

#[test]
fn doctor_report_lists_issues() {
    let mut tc = MobileToolchain::default();
    tc.rust_targets = vec!["aarch64-apple-ios".to_string()];
    let r = build_doctor_report(&tc, "/proj/", false, false, false);
    assert!(r.contains("- ✗ Xcode not detected\n"));
    assert!(r.contains("- ✗ Android SDK not detected\n"));
    assert!(r.contains("✗ 5 issue(s) found:\n  1. Xcode missing\n  2. Android SDK missing\n  3. 3 Rust target(s) missing\n"));
    assert!(r.contains("`rustup target add aarch64-apple-ios-sim aarch64-linux-android aarch64-apple-visionos`"));
    assert!(r.contains("iOS / visionOS builds require macOS"));
    assert!(r.contains("- ✗ mobile.toml (/proj/mobile.toml)\n"));
}

#[test]
fn stage_captions_and_errors() {
    assert_eq!(OneClickStageLabel::DownloadIosSimRuntime.human(), "Downloading iOS Simulator runtime");
    let e = OneClickError::new(OneClickStage::Launch, "boom".to_string());
    assert_eq!(format_one_click_err(&e), "[launch on device] boom");
    assert_eq!(short_id("0123456789"), "01234567…");
    assert_eq!(short_id("abc"), "abc");
    assert_eq!(MobilePlatform::VisionOs.triple(), "aarch64-apple-visionos");
}

#[test]
fn run_selection_builds_target() {
    assert!(build_target(&RunTargetSelection::default(), "b", "p", "a").is_none());
    let t = build_target(&RunTargetSelection::Android { serial: "S1".to_string() }, "b", "p", "Main").unwrap();
    match t {
        MobileTarget::Android { serial, package_name, activity } => {
            assert_eq!((serial.as_str(), package_name.as_str(), activity.as_str()), ("S1", "p", "Main"));
        },
        _ => panic!("expected an Android target"),
    }
}

#[test]
fn probes_assemble_their_outputs() {
    assert!(probe_xcode(false, Some("/x".to_string()), None, None, None).is_none());
    assert!(probe_xcode(true, Some("  \n".to_string()), None, None, None).is_none());
    let x = probe_xcode(
        true,
        Some("/Applications/Xcode.app\n".to_string()),
        Some("Xcode 16.4\nBuild version 16F6\n".to_string()),
        None,
        None,
    )
    .unwrap();
    assert_eq!(x.developer_dir, "/Applications/Xcode.app");
    assert_eq!(x.version, "Xcode 16.4");
    let y = probe_xcode(true, Some("/X".to_string()), None, None, None).unwrap();
    assert_eq!(y.version, "Xcode (unknown version)");
    assert_eq!(probe_rust_targets(Some("a\n b \na\n\n".to_string())), vec!["a", "b"]);
    assert!(probe_rust_targets(None).is_empty());
    assert_eq!(probe_adb_devices(Some("List of devices attached\nS1\tdevice\n".to_string())).len(), 1);
    let a = probe_android(
        Some("/sdk".to_string()),
        true,
        &vec!["android-34".to_string(), "android-30".to_string(), "other".to_string()],
        vec!["35.0.0".to_string(), "34.0.0".to_string()],
        None,
        true,
        false,
    )
    .unwrap();
    assert_eq!(a.platforms, vec![30, 34]);
    assert_eq!(a.build_tools, vec!["34.0.0", "35.0.0"]);
    assert_eq!(a.adb.as_deref(), Some("/sdk/platform-tools/adb"));
    assert!(probe_android(Some("/sdk".to_string()), false, &Vec::new(), Vec::new(), None, false, false).is_none());
    let ndk = locate_ndk(
        &vec![
            ("/sdk/ndk/25.1".to_string(), None),
            ("/sdk/ndk/27.0".to_string(), Some("Pkg.Desc = NDK\nPkg.Revision = 27.0.12077973\n".to_string())),
        ],
        &None,
    )
    .unwrap();
    assert_eq!(ndk.root, "/sdk/ndk/27.0");
    assert_eq!(ndk.version, "27.0.12077973");
    let legacy = locate_ndk(&Vec::new(), &Some(("/sdk/ndk-bundle".to_string(), None))).unwrap();
    assert_eq!(legacy.version, "unknown");
}

fn ply_ascii() -> Vec<u8> {
    b"ply\nformat ascii 1.0\nelement vertex 4\nproperty float x\nproperty float y\nproperty float z\nelement face 1\nproperty list uchar int vertex_indices\nend_header\n0 0 0\n1 0 0\n1 1 0\n0 1 0\n4 0 1 2 3\n".to_vec()
}

#[test]
fn ply_ascii_quad_gives_two_triangles() {
    let (info, edges) = ply_topology("models/quad.ply", &ply_ascii()).unwrap();
    assert_eq!(info.name, "quad.ply");
    assert_eq!(info.vertex_count, 4);
    assert_eq!(info.triangle_count, 2);
    assert_eq!(edges, vec![(0, 1), (1, 2), (2, 0), (0, 2), (2, 3), (3, 0)]);
    let h = ply_header(&ply_ascii()).unwrap();
    assert_eq!((h.vertex_count, h.face_count), (4, 1));
    assert!(ply_topology("x.ply", b"ply\nno header end\n").is_none());
}

#[test]
fn ply_binary_faces_and_offsets() {
    let mut data = Vec::new();
    data.push(3u8);
    for i in [5u32, 6, 7] {
        data.extend_from_slice(&i.to_le_bytes());
    }
    data.push(9u8);
    assert_eq!(binary_face_edges(&data, 0, 2), vec![(5, 6), (6, 7), (7, 5)]);
    let props = vec![("x".to_string(), "float".to_string()), ("red".to_string(), "uchar".to_string()), ("w".to_string(), "double".to_string())];
    let infos = calculate_property_offsets(&props);
    assert_eq!(find_property_offset(&infos, "w"), Some(5));
    assert_eq!(find_property_offset(&infos, "q"), None);
    assert_eq!(read_u32_le(&[1, 2, 0, 0]), 513);
}

#[test]
fn stl_ascii_and_binary_triangles() {
    let ascii = b"solid t\nfacet normal 0 0 1\nouter loop\nvertex 0 0 0\nvertex 1 0 0\nvertex 0 1 0\nendloop\nendfacet\nendsolid t\n";
    assert!(!stl_is_binary(ascii));
    let (info, edges) = stl_topology("/m/tri.stl", ascii);
    assert_eq!((info.name.as_str(), info.vertex_count, info.triangle_count), ("tri.stl", 3, 1));
    assert_eq!(edges, vec![(0, 1), (1, 2), (2, 0)]);
    let mut bin = vec![0u8; 80];
    bin.extend_from_slice(&2u32.to_le_bytes());
    bin.extend_from_slice(&[0u8; 100]);
    assert!(stl_is_binary(&bin));
    let (b, e) = stl_topology("b.stl", &bin);
    assert_eq!((b.vertex_count, b.triangle_count, e.len()), (6, 2, 6));
}

#[test]
fn one_click_installed_starts_unprobed() {
    let state = berrycode::mobile_toolchain::MobileToolchainState::default();
    assert_eq!(state.one_click_installed, None);
}

#[test]
fn refresh_keeps_one_click_cache_untouched() {
    let mut state = berrycode::mobile_toolchain::MobileToolchainState::default();
    state.one_click_installed = Some(true);
    state.refresh(MobileToolchain::default());
    assert_eq!(state.one_click_installed, Some(true));
    assert!(state.probed);
    state.one_click_session_ended();
    assert_eq!(state.one_click_installed, None);
}

#[test]
fn lazy_probes_need_their_toolchain() {
    let mut state = berrycode::mobile_toolchain::MobileToolchainState::from_cache_or_default(None);
    assert!(!state.probed);
    assert!(!state.refresh_adb_devices(Vec::new()));
    assert!(state.adb_path().is_none());
    let cached = berrycode::mobile_toolchain::MobileToolchainState::from_cache_or_default(Some(toolchain_all_good()));
    assert!(cached.probed);
    assert_eq!(cached.adb_path().as_deref(), Some("/opt/sdk/platform-tools/adb"));
}

#[test]
fn run_exit_lines() {
    assert_eq!(berrycode::runner::exit_line(Some(-1)), "─── Exited with code Some(-1) ───");
    assert_eq!(berrycode::runner::exit_line(None), "─── Exited with code None ───");
    assert_eq!(
        berrycode::mobile_toolchain::session_exit_line(OneClickStageLabel::Init, Some(0)),
        "─── Initializing mobile project exited with code Some(0) ───"
    );
    assert_eq!(berrycode::runner::log_payload(true, "warn"), "[stderr] warn");
    let t = MobileTarget::IosSim { udid: "U".into(), bundle_id: "b".into() };
    assert_eq!(berrycode::runner::run_preflight(&t, "/a.app", false, true).unwrap_err(), "artifact not found: /a.app");
    assert_eq!(berrycode::runner::run_preflight(&t, "/a.app", true, false).unwrap_err(), "iOS / visionOS targets require macOS");
    assert!(berrycode::runner::run_preflight(&t, "/a.app", true, true).is_ok());
}
