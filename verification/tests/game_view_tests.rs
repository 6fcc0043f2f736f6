use berrycode::game_view::{
    capture_due, crate_name_from_manifest, game_window_matches, hide_window_command,
    pick_game_window, project_name_of, GameWindowInfo, HostPlatform,
};

fn window(app: &str, title: &str, width: Option<u32>) -> GameWindowInfo {
    GameWindowInfo { app_name: app.to_string(), title: title.to_string(), width }
}

#[test]
fn crate_name_is_read_from_the_package_line() {
    let toml = "[package]\nname = \"my_game\"\nversion = \"0.1.0\"\n";
    assert_eq!(crate_name_from_manifest(toml), Some("my_game".to_string()));
    assert_eq!(crate_name_from_manifest("  name='solo' \r\n"), Some("solo".to_string()));
}

#[test]
fn crate_name_skips_empty_values_and_missing_names() {
    assert_eq!(crate_name_from_manifest("name = \"\"\nname = 'second'"), Some("second".to_string()));
    assert_eq!(crate_name_from_manifest("[package]\nversion = \"1\"\n"), None);
    assert_eq!(crate_name_from_manifest("name\n"), None);
    assert_eq!(crate_name_from_manifest(""), None);
}

#[test]
fn crate_name_takes_the_text_before_a_second_equals_sign() {
    assert_eq!(crate_name_from_manifest("name = \"a\" = \"b\""), Some("a".to_string()));
    // Any line that starts with `name` counts, as in the editor.
    assert_eq!(crate_name_from_manifest("namespace = \"ns\"\nname = \"x\""), Some("ns".to_string()));
}

#[test]
fn project_name_is_the_last_path_part() {
    assert_eq!(project_name_of("/Users/me/space_game"), "space_game");
    assert_eq!(project_name_of("space_game"), "space_game");
    assert_eq!(project_name_of("/Users/me/"), "");
}

#[test]
fn the_editor_and_empty_windows_are_never_captured() {
    let none: Option<String> = None;
    assert!(!game_window_matches(&window("BerryCode", "space_game", Some(800)), true, "space_game", &none));
    assert!(!game_window_matches(&window("space_game", "x - berrycode", Some(800)), true, "space_game", &none));
    assert!(!game_window_matches(&window("space_game", "Space", Some(0)), true, "space_game", &none));
    assert!(!game_window_matches(&window("space_game", "Space", Some(800)), false, "space_game", &none));
}

#[test]
fn game_windows_match_by_project_crate_or_bevy_title() {
    let none: Option<String> = None;
    assert!(game_window_matches(&window("Space_Game", "", None), true, "space_game", &none));
    assert!(game_window_matches(&window("runner", "SPACE_GAME v1", Some(640)), true, "space_game", &none));
    let krate = Some("rocket".to_string());
    assert!(game_window_matches(&window("Rocket", "", Some(640)), true, "other", &krate));
    assert!(!game_window_matches(&window("Rocket", "", Some(640)), true, "other", &none));
    assert!(game_window_matches(&window("foo", "App", Some(640)), true, "", &none));
    assert!(game_window_matches(&window("foo", "My Bevy Thing", Some(640)), true, "", &none));
    assert!(!game_window_matches(&window("Finder", "App", Some(640)), true, "", &none));
    assert!(!game_window_matches(&window("Visual Studio Code", "bevy docs", Some(640)), true, "", &none));
    assert!(!game_window_matches(&window("foo", "app", Some(640)), true, "", &none));
}

#[test]
fn the_first_matching_window_is_picked() {
    let none: Option<String> = None;
    let windows = vec![
        window("Finder", "Documents", Some(900)),
        window("BerryCode", "space_game", Some(1200)),
        window("space_game", "Space", Some(800)),
        window("other", "App", Some(800)),
    ];
    assert_eq!(pick_game_window(&windows, true, "/Users/me/space_game", &none), Some(2));
    assert_eq!(pick_game_window(&windows, false, "/Users/me/space_game", &none), None);
    let first_two = vec![window("Finder", "Documents", Some(900)), window("BerryCode", "space_game", Some(1200))];
    assert_eq!(pick_game_window(&first_two, true, "/Users/me/space_game", &none), None);
}

#[test]
fn captures_are_throttled() {
    assert!(capture_due(true, true, None));
    assert!(capture_due(true, true, Some(100)));
    assert!(!capture_due(true, true, Some(99)));
    assert!(!capture_due(false, true, None));
    assert!(!capture_due(true, false, Some(500)));
}

#[test]
fn hiding_commands_per_host() {
    let (prog, args) = hide_window_command(HostPlatform::MacOs, "space_game").unwrap();
    assert_eq!(prog, "osascript");
    assert_eq!(
        args,
        vec![
            "-e".to_string(),
            "tell application \"System Events\" to set visible of process \"space_game\" to false".to_string()
        ]
    );
    let (prog, args) = hide_window_command(HostPlatform::Linux, "space_game").unwrap();
    assert_eq!(prog, "xdotool");
    assert_eq!(args, vec!["search", "--name", "space_game", "windowmove", "--", "-10000", "-10000"]);
    let (prog, args) = hide_window_command(HostPlatform::Windows, "space_game").unwrap();
    assert_eq!(prog, "powershell");
    assert_eq!(args.len(), 4);
    assert!(args[3].contains("Get-Process -Name 'space_game' -ErrorAction SilentlyContinue"));
    assert!(hide_window_command(HostPlatform::Other, "space_game").is_none());
}
