use berrycode::keymap::{KeyAction, KeyBinding, Keymap};
use berrycode::log_relay::{classify, LogSeverity, LogStream};
use berrycode::one_click::{init_mobile_project_args, OneClickConfig, OneClickStage};
use berrycode::packager::{build_all, required_rustup_target, BuildAllPlatform};
use berrycode::play_console::{upload_aab, upload_ipa, UploadTrack};
use berrycode::probe::{
    classify_runtime, humanise_runtime, parse_adb_devices, parse_security_find_identity,
    parse_xcodebuild_sdks, simulators_from_listing, SimctlDevice, SimctlRuntime,
};
use berrycode::mobile_types::{SimFamily, SimState};
use berrycode::project_emit::{emit_gradle_project, emit_xcode_project, EmitReport};
use berrycode::runner::{build_command, MobileTarget};

#[test]
fn default_keymap_has_all_actions() {
    let km = Keymap::default();
    for action in KeyAction::ALL {
        assert!(km.contains_key(action), "Missing binding for {:?}", action);
    }
}

#[test]
fn key_binding_display() {
    let b = KeyBinding { command: true, shift: false, alt: false, key: "S".to_string() };
    assert_eq!(b.display(), "Cmd+S");
    let b2 = KeyBinding { command: true, shift: true, alt: false, key: "Z".to_string() };
    assert_eq!(b2.display(), "Cmd+Shift+Z");
    let b3 = KeyBinding { command: false, shift: false, alt: true, key: "F12".to_string() };
    assert_eq!(b3.display(), "Alt+F12");
}

#[test]
fn all_actions_have_labels() {
    for action in KeyAction::ALL {
        let label = action.label();
        assert!(!label.is_empty(), "Empty label for {:?}", action);
    }
}

#[test]
fn keymap_set_replaces_only_that_action() {
    let mut km = Keymap::default();
    let before = km.len();
    km.set(KeyAction::Save, KeyBinding { command: false, shift: false, alt: true, key: "W".to_string() });
    assert_eq!(km.len(), before);
    assert_eq!(km.get(KeyAction::Save).unwrap().display(), "Alt+W");
    assert_eq!(km.get(KeyAction::Undo).unwrap().display(), "Cmd+Z");
}

#[test]
fn target_triples_match_rustup_names() {
    assert_eq!(BuildAllPlatform::IosSimulator.target_triple(), "aarch64-apple-ios-sim");
    assert_eq!(BuildAllPlatform::Android.target_triple(), "aarch64-linux-android");
}

#[test]
fn desktop_targets_emit_skipped_in_v0_7_2() {
    let results = build_all(&vec![BuildAllPlatform::MacOs]);
    assert_eq!(results.len(), 1);
    match &results[0].1 {
        Err(msg) => assert!(msg.contains("v0.7.4"), "{msg}"),
        Ok(_) => panic!("desktop dispatch should be a placeholder until v0.7.4"),
    }
}

#[test]
fn build_all_keeps_order_and_dispatches_mobile() {
    let results = build_all(&vec![BuildAllPlatform::Android, BuildAllPlatform::Web, BuildAllPlatform::IosDevice]);
    assert_eq!(results.len(), 3);
    assert_eq!(results[0].1, Ok("aarch64-linux-android"));
    assert!(results[1].1.clone().unwrap_err().starts_with("Web (WASM) desktop / web build dispatch"));
    assert_eq!(results[2].1, Ok("aarch64-apple-ios"));
}

#[test]
fn classify_panic() {
    assert_eq!(
        classify("thread 'main' panicked at 'index out of bounds', src/lib.rs:42"),
        LogSeverity::Panic
    );
    assert_eq!(classify("panicked at /path/to/file.rs:1:1"), LogSeverity::Panic);
}

#[test]
fn classify_adb_logcat_priorities() {
    assert_eq!(classify("E/AndroidRuntime( 1234): FATAL EXCEPTION"), LogSeverity::Error);
    assert_eq!(classify("W/Bevy   ( 1234): something"), LogSeverity::Warn);
    assert_eq!(classify("I/wgpu(1234): adapter ready"), LogSeverity::Info);
    assert_eq!(classify("D/Tag: message"), LogSeverity::Debug);
    assert_eq!(classify("V/Verbose:msg"), LogSeverity::Trace);
}

#[test]
fn classify_does_not_misread_math() {
    assert_ne!(classify("E/B = m * c^2"), LogSeverity::Error);
}

#[test]
fn classify_tracing_levels() {
    assert_eq!(classify("2026-04-29T10:00:00Z INFO bevy_winit: Window created"), LogSeverity::Info);
    assert_eq!(classify("2026-04-29T10:00:00Z WARN bevy_render: low VRAM"), LogSeverity::Warn);
    assert_eq!(classify("2026-04-29T10:00:00Z ERROR app: bad thing"), LogSeverity::Error);
}

#[test]
fn classify_does_not_promote_substring_match() {
    assert_eq!(classify("error_count = 0 (this is fine)"), LogSeverity::Unknown);
}

#[test]
fn classify_apple_unified_log() {
    assert_eq!(classify("2026-04-29 10:00:00.000  <Error>: Something failed"), LogSeverity::Error);
    assert_eq!(classify("2026-04-29 10:00:00.000  <Warning>: Slow operation"), LogSeverity::Warn);
}

#[test]
fn log_stream_caps_growth() {
    let mut s = LogStream::new(3);
    s.push_line("a".into());
    s.push_line("b".into());
    s.push_line("c".into());
    s.push_line("d".into());
    assert_eq!(s.len(), 3);
    let texts: Vec<&str> = s.iter().map(|l| l.text.as_str()).collect();
    assert_eq!(texts, vec!["b", "c", "d"]);
}

#[test]
fn log_stream_classifies_on_push() {
    let mut s = LogStream::new(8);
    s.push_line("E/AndroidRuntime(1): boom".into());
    s.push_line("INFO foo: ok".into());
    let sevs: Vec<_> = s.iter().map(|l| l.severity).collect();
    assert_eq!(sevs, vec![LogSeverity::Error, LogSeverity::Info]);
}

#[test]
fn log_stream_clear_keeps_capacity() {
    let mut s = LogStream::new(2);
    s.push_line("x".into());
    s.clear();
    assert_eq!(s.len(), 0);
    s.push_line("1".into());
    s.push_line("2".into());
    s.push_line("3".into());
    assert_eq!(s.len(), 2);
}

fn cfg<'a>(bundle: &'a str, pkg: &'a str) -> OneClickConfig<'a> {
    OneClickConfig {
        project_root: "/tmp/demo",
        project_name: "demo",
        ios_bundle_id: bundle,
        android_package_name: pkg,
    }
}

#[test]
fn init_skips_when_mobile_toml_exists() {
    let result = init_mobile_project_args(&cfg("com.example.demo", "com.example.demo"), true).unwrap();
    assert!(result.is_none(), "expected init to skip when mobile.toml is already on disk");
}

#[test]
fn init_rejects_empty_ios_bundle_id() {
    let err = init_mobile_project_args(&cfg("", "com.example.demo"), false).unwrap_err();
    assert!(matches!(err.stage, OneClickStage::InitProject));
    assert!(err.message.contains("Bundle ID"), "{}", err.message);
}

#[test]
fn stage_labels_are_distinct() {
    let labels = [
        OneClickStage::ProbeToolchain.label(),
        OneClickStage::InstallToolchain.label(),
        OneClickStage::InitProject.label(),
        OneClickStage::Launch.label(),
    ];
    let mut sorted: Vec<&str> = labels.to_vec();
    sorted.sort_unstable();
    let original = sorted.len();
    sorted.dedup();
    assert_eq!(sorted.len(), original, "duplicate OneClickStage label");
}

#[test]
fn required_target_for_ios_sim() {
    assert_eq!(required_rustup_target("iOS Simulator"), Some("aarch64-apple-ios-sim"));
}

#[test]
fn required_target_for_unknown_platform_is_none() {
    assert!(required_rustup_target("PlayStation").is_none());
}

#[test]
fn upload_aab_rejects_missing_aab() {
    let err = upload_aab("/tmp/x/missing.aab", false, "/tmp/x/sa.json", true, "com.example.app", UploadTrack::Internal)
        .unwrap_err();
    assert!(err.contains("AAB not found"), "{err}");
}

#[test]
fn upload_aab_rejects_empty_package_name() {
    let err = upload_aab("/tmp/x/app.aab", true, "/tmp/x/sa.json", true, "", UploadTrack::Internal).unwrap_err();
    assert!(err.contains("package name"), "{err}");
}

#[test]
fn upload_aab_emits_curl_for_valid_inputs() {
    let cmd = upload_aab("/tmp/x/app.aab", true, "/tmp/x/sa.json", true, "com.example.app", UploadTrack::Beta).unwrap();
    assert!(cmd.contains("com.example.app"));
    assert!(cmd.contains("\"track\":\"beta\""));
}

#[test]
fn upload_aab_rejects_missing_service_account() {
    let err = upload_aab("/tmp/x/app.aab", true, "/tmp/x/sa.json", false, "com.example.app", UploadTrack::Alpha)
        .unwrap_err();
    assert!(err.starts_with("Play Console service-account JSON not found at /tmp/x/sa.json"), "{err}");
}

#[test]
fn upload_ipa_checks_inputs_in_order() {
    assert!(upload_ipa("/a.ipa", false, "me", "pw").unwrap_err().starts_with("IPA not found at /a.ipa"));
    assert!(upload_ipa("/a.ipa", true, "", "pw").unwrap_err().starts_with("Apple ID is empty"));
    assert!(upload_ipa("/a.ipa", true, "me", "").unwrap_err().starts_with("App-specific password is empty"));
    let cmd = upload_ipa("/a.ipa", true, "me", "pw").unwrap();
    assert!(cmd.contains("xcrun altool --upload-app --type ios --file /a.ipa"));
    assert!(cmd.contains("--username me --password pw"));
}

#[test]
fn track_labels_match_play_api() {
    assert_eq!(UploadTrack::Internal.label(), "internal");
    assert_eq!(UploadTrack::Production.label(), "production");
}

#[test]
fn parse_xcodebuild_sdks_extracts_names() {
    let stdout = "iOS SDKs:\n\
         \tiOS 17.5                          \t-sdk iphoneos17.5\n\
         \tiOS 17.5 Simulator                \t-sdk iphonesimulator17.5\n\
         \n";
    let sdks = parse_xcodebuild_sdks(stdout.into());
    assert_eq!(sdks, vec!["iOS 17.5", "iOS 17.5 Simulator"]);
}

fn device(udid: &str, name: &str, state: &str, available: bool) -> SimctlDevice {
    SimctlDevice {
        udid: Some(udid.to_string()),
        name: Some(name.to_string()),
        state: Some(state.to_string()),
        is_available: Some(available),
    }
}

#[test]
fn parse_simctl_devices_filters_unavailable() {
    let runtimes = vec![SimctlRuntime {
        key: "com.apple.CoreSimulator.SimRuntime.iOS-17-5".to_string(),
        devices: Some(vec![
            device("abc", "iPhone 15", "Booted", true),
            device("xyz", "iPhone XS", "Shutdown", false),
        ]),
    }];
    let sims = simulators_from_listing(&runtimes);
    assert_eq!(sims.len(), 1);
    assert_eq!(sims[0].udid, "abc");
    assert_eq!(sims[0].state, SimState::Booted);
    assert_eq!(sims[0].family, SimFamily::Ios);
    assert_eq!(sims[0].runtime, "iOS 17.5");
}

#[test]
fn humanise_runtime_visionos() {
    let r = humanise_runtime("com.apple.CoreSimulator.SimRuntime.xrOS-1-2");
    assert!(r.starts_with("xrOS"));
    assert_eq!(r, "xrOS 1.2");
}

#[test]
fn classify_runtime_buckets() {
    assert_eq!(classify_runtime("com.apple.CoreSimulator.SimRuntime.iOS-17-5"), SimFamily::Ios);
    assert_eq!(classify_runtime("com.apple.CoreSimulator.SimRuntime.xrOS-1-2"), SimFamily::VisionOs);
    assert_eq!(classify_runtime("com.apple.CoreSimulator.SimRuntime.tvOS-17-5"), SimFamily::Other);
}

#[test]
fn parse_security_find_identity_dedupes_sections() {
    let out = "Policy: Code Signing\n\
        \tMatching identities\n\
        \t1) ABCD1234EF \"Apple Development: Foo Bar (XXXXXXXXXX)\"\n\
        \t2) 1234ABCDEF \"Developer ID Application: Acme (YYYYYYYYYY)\"\n\
        \t2 identities found\n\
        \n\
        \tValid identities only\n\
        \t1) ABCD1234EF \"Apple Development: Foo Bar (XXXXXXXXXX)\"\n\
        \t1 valid identities found\n";
    let ids = parse_security_find_identity(out);
    assert_eq!(ids.len(), 2);
    assert_eq!(ids[0].id, "ABCD1234EF");
    assert!(ids[0].common_name.starts_with("Apple Development:"));
    assert_eq!(ids[1].id, "1234ABCDEF");
}

#[test]
fn parse_security_find_identity_empty() {
    assert!(parse_security_find_identity("Policy: Code Signing\n\t0 identities found\n").is_empty());
}

#[test]
fn parse_adb_devices_extracts_state_and_model() {
    let out = "List of devices attached\n\
        R5CTC0ABC123\tdevice usb:1-1 product:taimen model:Pixel_2 device:taimen\n\
        emulator-5554\tdevice product:sdk_gphone64_arm64 model:sdk_gphone64_arm64\n\
        1234567890ABC\tunauthorized\n";
    let ds = parse_adb_devices(out);
    assert_eq!(ds.len(), 3);
    assert_eq!(ds[0].serial, "R5CTC0ABC123");
    assert_eq!(ds[0].model, "Pixel_2");
    assert!(ds[0].authorised);
    assert!(ds[1].serial.starts_with("emulator-"));
    assert!(ds[1].authorised);
    assert!(!ds[2].authorised);
}

#[test]
fn parse_adb_devices_handles_empty_list() {
    let out = "List of devices attached\n\n";
    assert!(parse_adb_devices(out).is_empty());
}

#[test]
fn xcode_emit_creates_expected_files() {
    let files = emit_xcode_project("/tmp/proj", "com.example.app", "ABCDE12345", "Demo");
    let names: Vec<String> = files
        .iter()
        .map(|f| std::path::Path::new(&f.path).file_name().unwrap().to_string_lossy().to_string())
        .collect();
    assert!(names.iter().any(|n| n == "Info.plist"));
    assert!(names.iter().any(|n| n == "App.swift"));
    assert!(names.iter().any(|n| n == "project.yml"));
    let plist = files.iter().find(|f| f.path == "/tmp/proj/ios/Info.plist").unwrap();
    assert!(plist.contents.contains("com.example.app"));
}

#[test]
fn xcode_emit_preserves_user_edits() {
    let files = emit_xcode_project("/tmp/proj", "com.example.app", "ABCDE12345", "Demo");
    let mut report = EmitReport::default();
    let mut written = Vec::new();
    for f in &files {
        let exists = f.path == "/tmp/proj/ios/Info.plist";
        if report.touch(f.path.clone(), exists) {
            written.push(f.path.clone());
        }
    }
    assert!(report.preserved.iter().any(|p| p == "/tmp/proj/ios/Info.plist"));
    assert!(!written.iter().any(|p| p == "/tmp/proj/ios/Info.plist"));
    assert_eq!(report.created.len(), 4);
}

#[test]
fn gradle_emit_emits_manifest_and_build_files() {
    let files = emit_gradle_project("/tmp/proj", "com.example.app", "demo");
    let names: Vec<String> = files
        .iter()
        .map(|f| std::path::Path::new(&f.path).file_name().unwrap().to_string_lossy().to_string())
        .collect();
    assert!(names.iter().any(|n| n == "settings.gradle"));
    assert!(names.iter().any(|n| n == "AndroidManifest.xml"));
    let app_gradle = files.iter().find(|f| f.path == "/tmp/proj/android/app/build.gradle").unwrap();
    assert!(app_gradle.contents.contains("namespace 'com.example.app'"));
}

#[test]
fn ios_sim_command_includes_boot_install_launch() {
    let target = MobileTarget::IosSim { udid: "ABC-DEF".into(), bundle_id: "com.example.Game".into() };
    let (program, args) = build_command(&target, "/tmp/Game.app").unwrap();
    assert_eq!(program, "sh");
    let script = &args[1];
    assert!(script.contains("simctl boot ABC-DEF"));
    assert!(script.contains("simctl install ABC-DEF '/tmp/Game.app'"));
    assert!(script.contains("simctl launch --console-pty ABC-DEF com.example.Game"));
}

#[test]
fn ios_device_command_uses_devicectl() {
    let target = MobileTarget::IosDevice { udid: "00008110-001234".into(), bundle_id: "com.example.Game".into() };
    let (_, args) = build_command(&target, "/tmp/Game.app").unwrap();
    let script = &args[1];
    assert!(script.contains("devicectl device install"));
    assert!(script.contains("--device 00008110-001234"));
    assert!(script.contains("devicectl device process launch"));
    assert!(script.contains("com.example.Game"));
}

#[test]
fn android_command_chains_install_start_logcat() {
    let target = MobileTarget::Android {
        serial: "R5CTC0ABC123".into(),
        package_name: "com.example.game".into(),
        activity: "MainActivity".into(),
    };
    let (_, args) = build_command(&target, "/tmp/game.apk").unwrap();
    let script = &args[1];
    assert!(script.contains("adb -s R5CTC0ABC123 install -r '/tmp/game.apk'"));
    assert!(script.contains("am start -W -n com.example.game/.MainActivity"), "script: {script}");
    assert!(script.contains("logcat"));
    assert!(script.contains("pidof -s com.example.game"));
}

#[test]
fn android_activity_with_explicit_package_passes_through() {
    let target = MobileTarget::Android {
        serial: "S".into(),
        package_name: "com.example".into(),
        activity: "com.example.MainActivity".into(),
    };
    let (_, args) = build_command(&target, "/tmp/g.apk").unwrap();
    let script = &args[1];
    assert!(script.contains("am start -W -n com.example/com.example.MainActivity"), "script: {script}");
}

#[test]
fn target_label_is_short() {
    let t = MobileTarget::IosSim { udid: "12345678-aaaa-bbbb-cccc-dddd".into(), bundle_id: "x".into() };
    let l = t.label();
    assert!(l.contains("iOS Sim"));
    assert!(l.contains("…"));
    assert_eq!(l, "iOS Sim 12345678…");
}
