use berrycode::log_relay::LogSeverity;
use berrycode::mobile_toolchain::{OneClickStageLabel, RunTargetSelection};
use berrycode::mobile_types::{
    AdbDevice, AndroidInstall, MobileToolchain, NdkInstall, SimFamily, SimState, Simulator,
    XcodeInstall,
};
use berrycode::toolchain_panel::{
    adb_line, asks_for_package, build_tools_line, count_text, device_row, download_runtime_label,
    install_targets_label, missing_rust_targets, ndk_line, offer_runtime_download, one_click_buttons,
    platforms_line, run_ready, run_target_options, rustup_add_command, selection_label,
    severity_color, simulator_row, simulator_summary,
};

fn sim(udid: &str, name: &str, runtime: &str, state: SimState, family: SimFamily) -> Simulator {
    Simulator {
        udid: udid.to_string(),
        name: name.to_string(),
        runtime: runtime.to_string(),
        state,
        family,
    }
}

fn device(serial: &str, model: &str, authorised: bool) -> AdbDevice {
    AdbDevice { serial: serial.to_string(), model: model.to_string(), authorised }
}

fn toolchain() -> MobileToolchain {
    MobileToolchain {
        xcode: Some(XcodeInstall {
            developer_dir: "/Applications/Xcode.app/Contents/Developer".to_string(),
            version: "Xcode 16.4".to_string(),
            sdks: Vec::new(),
            simulators: vec![
                sim("AAAA-1", "iPhone 16", "iOS 18.5", SimState::Booted, SimFamily::Ios),
                sim("BBBB-2", "Apple Vision Pro", "xrOS 2.0", SimState::Shutdown, SimFamily::VisionOs),
                sim("CCCC-3", "iPad", "iOS 18.5", SimState::Shutdown, SimFamily::Ios),
            ],
            codesign_identities: Vec::new(),
        }),
        android: Some(AndroidInstall {
            sdk_root: "/opt/sdk".to_string(),
            ndk: None,
            platforms: vec![34, 33],
            build_tools: Vec::new(),
            adb: None,
            devices: vec![device("emulator-5554", "", true), device("R5CT", "Pixel_8", false)],
        }),
        rust_targets: vec!["aarch64-linux-android".to_string(), "aarch64-apple-ios".to_string()],
        last_probed: None,
    }
}

#[test]
fn busy_stages_relabel_their_buttons() {
    assert_eq!(download_runtime_label(None), "Download iOS Simulator runtime");
    assert_eq!(download_runtime_label(Some(OneClickStageLabel::DownloadIosSimRuntime)), "Downloading…");
    assert_eq!(download_runtime_label(Some(OneClickStageLabel::Install)), "Download iOS Simulator runtime");
    assert_eq!(install_targets_label(Some(OneClickStageLabel::InstallRustTargets)), "Installing targets...");
    assert_eq!(install_targets_label(None), "Install missing targets");
}

#[test]
fn one_click_buttons_follow_install_and_session_state() {
    let b = one_click_buttons(false, false, None, true);
    assert!(b.install_enabled && !b.init_enabled && !b.ios_enabled && !b.android_enabled && !b.stop_shown);
    assert_eq!(b.install_label, "Install cargo-mobile2");
    let b = one_click_buttons(true, false, None, true);
    assert!(!b.install_enabled && b.init_enabled && b.ios_enabled && b.android_enabled);
    assert_eq!(b.ios_label, "Run on iOS Sim");
    let b = one_click_buttons(true, true, None, false);
    assert!(!b.init_enabled && !b.ios_enabled && b.android_enabled);
    assert_eq!(b.ios_label, "Run on iOS Sim (macOS only)");
    let b = one_click_buttons(false, false, Some(OneClickStageLabel::Install), true);
    assert!(!b.install_enabled && b.stop_shown);
    assert_eq!(b.install_label, "Installing...");
}

#[test]
fn xcode_rows() {
    let t = toolchain();
    let sims = &t.xcode.as_ref().unwrap().simulators;
    assert_eq!(simulator_summary(sims), "Simulators: 2 iOS, 1 visionOS");
    assert!(!offer_runtime_download(sims));
    assert!(offer_runtime_download(&vec![sims[1].clone()]));
    assert_eq!(simulator_row(&sims[0]), "online  iPhone 16 — iOS 18.5 (AAAA-1)");
    assert_eq!(simulator_row(&sims[1]), "offline  Apple Vision Pro — xrOS 2.0 (BBBB-2)");
    assert_eq!(count_text(0), "not loaded");
    assert_eq!(count_text(12), "12");
}

#[test]
fn android_rows() {
    assert_eq!(platforms_line(&vec![34, 33]), "Platforms: android-34, android-33");
    assert_eq!(platforms_line(&Vec::new()), "Platforms: none");
    assert_eq!(build_tools_line(&Vec::new()), "Build tools: none");
    assert_eq!(build_tools_line(&vec!["34.0.0".to_string(), "35.0.1".to_string()]), "Build tools: 34.0.0, 35.0.1");
    assert_eq!(ndk_line(&None), "NDK: not installed (sdkmanager 'ndk;<version>')");
    let ndk = Some(NdkInstall { root: "/opt/ndk".to_string(), version: "27.0.1".to_string() });
    assert_eq!(ndk_line(&ndk), "NDK: 27.0.1 (/opt/ndk)");
    assert_eq!(adb_line(&None), "adb: missing (sdkmanager 'platform-tools')");
    assert_eq!(adb_line(&Some("/opt/adb".to_string())), "adb: /opt/adb");
    assert_eq!(device_row(&device("emulator-5554", "", true)), "online  emulator-5554 — (unknown model) (device)");
    assert_eq!(device_row(&device("R5CT", "Pixel_8", false)), "unauthorised  R5CT — Pixel_8 (unauthorised)");
}

#[test]
fn missing_targets_and_their_install_command() {
    let missing = missing_rust_targets(&toolchain());
    assert_eq!(missing, vec!["aarch64-apple-ios-sim".to_string(), "aarch64-apple-visionos".to_string()]);
    assert_eq!(rustup_add_command(&missing), "rustup target add aarch64-apple-ios-sim aarch64-apple-visionos");
    assert_eq!(rustup_add_command(&Vec::new()), "rustup target add ");
}

#[test]
fn picker_lists_none_ios_simulators_then_android_devices() {
    let options = run_target_options(&toolchain());
    let labels: Vec<&str> = options.iter().map(|(_, l)| l.as_str()).collect();
    assert_eq!(
        labels,
        vec![
            "(none)",
            "iOS Sim — iPhone 16 (iOS 18.5)",
            "iOS Sim — iPad (iOS 18.5)",
            "Android — emulator-5554",
            "Android — Pixel_8 R5CT (unauthorised)",
        ]
    );
    assert_eq!(options[0].0, RunTargetSelection::Unselected);
    assert_eq!(options[2].0, RunTargetSelection::IosSim { udid: "CCCC-3".to_string() });
    assert_eq!(options[4].0, RunTargetSelection::Android { serial: "R5CT".to_string() });
    let bare = MobileToolchain { xcode: None, android: None, rust_targets: Vec::new(), last_probed: None };
    assert_eq!(run_target_options(&bare).len(), 1);
}

#[test]
fn picker_label_and_run_readiness() {
    assert_eq!(selection_label(&RunTargetSelection::Unselected), "(none)");
    let sim = RunTargetSelection::IosSim { udid: "0123456789ABCDEF".to_string() };
    assert_eq!(selection_label(&sim), "iOS Sim 01234567…");
    let dev = RunTargetSelection::IosDevice { udid: "short".to_string() };
    assert_eq!(selection_label(&dev), "iOS Device short");
    let android = RunTargetSelection::Android { serial: "emulator-5554".to_string() };
    assert_eq!(selection_label(&android), "Android emulator-5554");
    assert!(!run_ready(&RunTargetSelection::Unselected, "/tmp/app.apk"));
    assert!(!run_ready(&android, ""));
    assert!(run_ready(&android, "/tmp/app.apk"));
    assert!(asks_for_package(&android));
    assert!(!asks_for_package(&sim));
}

#[test]
fn log_colours_by_severity() {
    let c = severity_color(LogSeverity::Panic);
    assert_eq!((c.r, c.g, c.b), (255, 100, 200));
    let c = severity_color(LogSeverity::Debug);
    assert_eq!((c.r, c.g, c.b), (170, 170, 170));
    let c = severity_color(LogSeverity::Unknown);
    assert_eq!((c.r, c.g, c.b), (200, 200, 200));
}
