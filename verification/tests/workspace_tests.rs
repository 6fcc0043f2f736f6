use berrycode::ui_colors::{visuals_for_theme, ThemeMode};
use berrycode::workspace::{
    close_requested_shows_confirm, drop_destination, drop_target_dir, panel_after_shortcuts, poll_due,
    recent_project_candidates, recent_projects_text, resolve_project_path, update_recent_projects,
    watcher_reload_plan, ActivePanel, ReloadPlan,
};

fn strings(v: &[&str]) -> Vec<String> {
    v.iter().map(|s| s.to_string()).collect()
}

#[test]
fn project_path_prefers_cli_then_env() {
    assert_eq!(resolve_project_path(Some("/a".into()), true, Some("/b".into()), true), "/a");
    assert_eq!(resolve_project_path(Some("/a".into()), false, Some("/b".into()), true), "/b");
    assert_eq!(resolve_project_path(None, false, Some("/b".into()), false), "");
}

#[test]
fn recent_projects_move_to_front_and_cap_at_ten() {
    let list = strings(&["/a", "/b", "/c"]);
    assert_eq!(update_recent_projects(&list, "/b"), strings(&["/b", "/a", "/c"]));
    let many: Vec<String> = (0..12).map(|i| format!("/p{i}")).collect();
    let out = update_recent_projects(&many, "/new");
    assert_eq!(out.len(), 10);
    assert_eq!(out[0], "/new");
    assert_eq!(out[9], "/p8");
    assert_eq!(recent_project_candidates("/a\n\n/b\n"), strings(&["/a", "/b"]));
    assert_eq!(recent_projects_text(&strings(&["/a", "/b"])), "/a\n/b");
}

#[test]
fn watcher_reloads_root_or_expanded_dirs() {
    match watcher_reload_plan("/p", &strings(&["/p/src", "/p"]), &Vec::new()) {
        ReloadPlan::WholeTree => {},
        other => panic!("expected a full reload, got {:?}", other),
    }
    match watcher_reload_plan("/p", &strings(&["/p/src", "/p/docs", "/p/src"]), &strings(&["/p/src"])) {
        ReloadPlan::Dirs(ds) => assert_eq!(ds, strings(&["/p/src"])),
        other => panic!("expected directory reloads, got {:?}", other),
    }
}

#[test]
fn close_and_drop_decisions() {
    assert!(close_requested_shows_confirm(&vec![false, true]));
    assert!(!close_requested_shows_confirm(&vec![false, false]));
    assert_eq!(drop_target_dir(&Vec::new(), "/root"), "/root");
    assert_eq!(drop_target_dir(&strings(&["/root/a", "/root/a/bb", "/root/a/cc"]), "/root"), "/root/a/cc");
    assert_eq!(drop_destination("/root/a", "x.png"), "/root/a/x.png");
}

#[test]
fn shortcuts_and_polling() {
    assert_eq!(panel_after_shortcuts(ActivePanel::Git, false, [true; 6]), ActivePanel::Git);
    assert_eq!(
        panel_after_shortcuts(ActivePanel::Git, true, [true, false, false, false, true, false]),
        ActivePanel::EcsInspector
    );
    assert_eq!(panel_after_shortcuts(ActivePanel::Git, true, [false; 6]), ActivePanel::Git);
    assert!(poll_due(None));
    assert!(!poll_due(Some(49)));
    assert!(poll_due(Some(50)));
}

#[test]
fn theme_visuals() {
    let hc = visuals_for_theme(ThemeMode::HighContrast);
    assert_eq!((hc.panel.r, hc.panel.g, hc.panel.b), (0, 0, 0));
    assert_eq!((hc.text.r, hc.text.g, hc.text.b), (255, 255, 255));
    assert!(visuals_for_theme(ThemeMode::Light).light_base);
    assert_eq!(visuals_for_theme(ThemeMode::Dark).selection_fill, [20, 40, 70, 130]);
}
