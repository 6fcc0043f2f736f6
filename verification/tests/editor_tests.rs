use berrycode::display_profile::DisplayProfile;
use berrycode::editor::{
    char_triggers_completion, events_look_like_typing, extract_word_at_position, filter_ime_events,
    format_timestamp, list_project_bscenes, DirEntryName, GodotScenePanelState, InputEvent,
};
use berrycode::ui_colors::{set_theme, ThemeMode, UiTheme, EDITOR_BG, TEXT_DEFAULT};

fn text(s: &str) -> InputEvent {
    InputEvent::Text(s.to_string())
}
fn preedit(s: &str) -> InputEvent {
    InputEvent::ImePreedit(s.to_string())
}
fn commit(s: &str) -> InputEvent {
    InputEvent::ImeCommit(s.to_string())
}
fn backspace() -> InputEvent {
    InputEvent::Key { backspace: true, pressed: true }
}
fn key_press() -> InputEvent {
    InputEvent::Key { backspace: false, pressed: true }
}

#[test]
fn default_state_is_empty() {
    let s = GodotScenePanelState::default();
    assert!(s.cached.is_none());
    assert!(s.selected.is_none());
    assert!(s.last_error.is_none());
}

#[test]
fn clear_resets_all_fields() {
    let mut s = GodotScenePanelState::default();
    s.last_error = Some("boom".to_string());
    s.clear();
    assert!(s.last_error.is_none());
}

#[test]
fn godot_panel_reloads_on_new_file_or_newer_mtime() {
    let mut s = GodotScenePanelState::default();
    assert!(s.needs_reload("a.tscn", Some(5)));
    s.cached = Some(("a.tscn".to_string(), 5));
    assert!(!s.needs_reload("a.tscn", Some(5)));
    assert!(s.needs_reload("a.tscn", Some(6)));
    assert!(s.needs_reload("b.tscn", Some(5)));
    assert!(!s.needs_reload("a.tscn", None));
}

#[test]
fn default_profile_has_no_spec() {
    assert!(DisplayProfile::Default.spec().is_none());
    assert_eq!(DisplayProfile::Default.label(), "Free Aspect (Editor)");
}

#[test]
fn portrait_profiles_are_taller_than_wide() {
    for p in [
        DisplayProfile::IPhonePortrait,
        DisplayProfile::IPadPortrait,
        DisplayProfile::AndroidPhonePortrait,
    ] {
        let s = p.spec().expect("portrait spec");
        assert!(
            s.height > s.width,
            "{:?} expected portrait but got {}×{}",
            p,
            s.width,
            s.height
        );
    }
}

#[test]
fn landscape_profiles_are_wider_than_tall() {
    for p in [
        DisplayProfile::IPhoneLandscape,
        DisplayProfile::IPadLandscape,
        DisplayProfile::AndroidPhoneLandscape,
        DisplayProfile::AndroidTablet,
    ] {
        let s = p.spec().expect("landscape spec");
        assert!(
            s.width > s.height,
            "{:?} expected landscape but got {}×{}",
            p,
            s.width,
            s.height
        );
    }
}

#[test]
fn iphone_portrait_has_safe_top_for_dynamic_island() {
    let s = DisplayProfile::IPhonePortrait.spec().unwrap();
    assert!(s.safe_top > 0, "iPhone portrait must reserve a safe top");
    assert!(s.safe_bottom > 0, "iPhone portrait must reserve home-indicator");
}

#[test]
fn all_includes_default_first() {
    assert_eq!(DisplayProfile::ALL.first(), Some(&DisplayProfile::Default));
}

#[test]
fn every_label_is_unique() {
    let mut labels: Vec<&'static str> = DisplayProfile::ALL.iter().map(|p| p.label()).collect();
    labels.sort_unstable();
    let original = labels.len();
    labels.dedup();
    assert_eq!(labels.len(), original, "duplicate DisplayProfile label");
}

fn entry(name: &str) -> DirEntryName {
    DirEntryName { path: format!("/proj/scenes/{}", name), file_name: name.to_string() }
}

#[test]
fn list_project_bscenes_empty_for_missing_dir() {
    let out = list_project_bscenes(&Vec::new());
    assert!(out.is_empty());
}

#[test]
fn list_project_bscenes_picks_up_every_bscene_sorted() {
    let entries = vec![entry("scene2.bscene"), entry("scene.bscene"), entry("README.md"), entry("nested")];
    let out = list_project_bscenes(&entries);
    let names: Vec<String> = out
        .iter()
        .map(|p| std::path::Path::new(p).file_name().unwrap().to_string_lossy().into_owned())
        .collect();
    assert_eq!(names, vec!["scene.bscene", "scene2.bscene"]);
}

#[test]
fn list_project_bscenes_case_insensitive_extension() {
    let entries = vec![entry("a.BSCENE"), entry("b.Bscene")];
    let out = list_project_bscenes(&entries);
    assert_eq!(out.len(), 2, "extension match must be case-insensitive");
}

#[test]
fn list_project_bscenes_skips_dirs_with_bscene_name() {
    let entries = vec![entry("not_a_scene.bscene"), entry("real.bscene")];
    let out = list_project_bscenes(&entries);
    assert!(out.iter().any(|p| p.ends_with("real.bscene")));
}

#[test]
fn text_event_counts_as_typing() {
    assert!(events_look_like_typing(&[text("a")]));
}

#[test]
fn preedit_counts_as_typing() {
    assert!(
        events_look_like_typing(&[preedit("a")]),
        "Preedit('a') must count as typing — this is the IME-on regression"
    );
}

#[test]
fn commit_counts_as_typing() {
    assert!(events_look_like_typing(&[commit("あ")]));
}

#[test]
fn empty_preedit_is_not_typing() {
    assert!(!events_look_like_typing(&[preedit("")]));
}

#[test]
fn key_press_alone_is_not_typing() {
    assert!(!events_look_like_typing(&[key_press()]));
    assert!(!events_look_like_typing(&[backspace()]));
    assert!(!events_look_like_typing(&[InputEvent::Key { backspace: false, pressed: true }]));
}

#[test]
fn empty_frame_is_not_typing() {
    assert!(!events_look_like_typing(&[]));
}

#[test]
fn alphanumeric_triggers_completion() {
    assert!(char_triggers_completion('a'));
    assert!(char_triggers_completion('Z'));
    assert!(char_triggers_completion('0'));
    assert!(char_triggers_completion('9'));
}

#[test]
fn special_completion_triggers() {
    assert!(char_triggers_completion('_'));
    assert!(char_triggers_completion('.'));
    assert!(char_triggers_completion(':'));
    assert!(char_triggers_completion('<'));
}

#[test]
fn whitespace_and_brackets_do_not_trigger() {
    assert!(!char_triggers_completion(' '));
    assert!(!char_triggers_completion('\n'));
    assert!(!char_triggers_completion('\t'));
    assert!(!char_triggers_completion('('));
    assert!(!char_triggers_completion(')'));
    assert!(!char_triggers_completion(';'));
    assert!(!char_triggers_completion(','));
}

#[test]
fn cjk_chars_trigger_completion() {
    assert!(char_triggers_completion('あ'));
    assert!(char_triggers_completion('日'));
}

#[test]
fn enabled_alone_is_stripped() {
    let events = filter_ime_events(vec![InputEvent::ImeEnabled, backspace()]);
    assert_eq!(events.len(), 1);
    assert!(matches!(events[0], InputEvent::Key { .. }));
}

#[test]
fn preedit_drops_text_keeps_preedit() {
    let events = filter_ime_events(vec![preedit("あ"), text("あ")]);
    assert_eq!(events.len(), 1);
    assert!(matches!(events[0], InputEvent::ImePreedit(_)));
}

#[test]
fn backspace_frame_drops_preedit() {
    let events = filter_ime_events(vec![preedit("あ"), backspace()]);
    assert_eq!(events.len(), 1);
    assert!(matches!(events[0], InputEvent::Key { .. }));
}

#[test]
fn ime_filter_is_idempotent_on_a_busy_frame() {
    let frame = vec![
        InputEvent::ImeEnabled,
        preedit("あ"),
        text("あ"),
        backspace(),
        commit("x"),
        InputEvent::Other,
    ];
    let once = filter_ime_events(frame);
    let twice = filter_ime_events(once.clone());
    assert_eq!(once, twice);
    assert_eq!(once, vec![backspace(), commit("x"), InputEvent::Other]);
}

#[test]
fn ui_colors_dark_vs_light_distinct() {
    let mut theme = UiTheme::default();
    set_theme(&mut theme, ThemeMode::Dark);
    let dark_editor = EDITOR_BG(&theme);
    let dark_text = TEXT_DEFAULT(&theme);
    set_theme(&mut theme, ThemeMode::Light);
    let light_editor = EDITOR_BG(&theme);
    let light_text = TEXT_DEFAULT(&theme);
    assert_ne!(dark_editor, light_editor, "EDITOR_BG must differ");
    assert_ne!(dark_text, light_text, "TEXT_DEFAULT must differ");
    assert!(light_editor.r > dark_editor.r);
}

#[test]
fn ui_colors_high_contrast_uses_pure_black_white() {
    let mut theme = UiTheme::default();
    set_theme(&mut theme, ThemeMode::HighContrast);
    let bg = EDITOR_BG(&theme);
    let fg = TEXT_DEFAULT(&theme);
    assert_eq!((bg.r, bg.g, bg.b), (0, 0, 0));
    assert_eq!((fg.r, fg.g, fg.b), (255, 255, 255));
}

#[test]
fn word_at_position_takes_identifier_around_cursor() {
    assert_eq!(extract_word_at_position("let foo_bar = 1;", 6), "foo_bar");
    assert_eq!(extract_word_at_position("a + b", 2), "");
    assert_eq!(extract_word_at_position("abc", 3), "");
}

#[test]
fn timestamp_is_relative() {
    assert_eq!(format_timestamp(100, 130), "30 seconds ago");
    assert_eq!(format_timestamp(0, 7200), "2 hours ago");
}
