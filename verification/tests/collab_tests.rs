use berrycode::live_collab::{CollabState, CollabStatus, Collaborator};
use berrycode::one_click::{bundle_id_from_identifier, read_bundle_id_from_mobile_toml};

#[test]
fn hosting_makes_a_short_hex_session_and_adds_self() {
    let mut s = CollabState::default();
    s.host_session();
    assert_eq!(s.status, CollabStatus::Hosting);
    assert_eq!(s.session_id.len(), 8);
    assert!(s.session_id.chars().all(|c| c.is_ascii_hexdigit() && !c.is_ascii_uppercase()));
    assert_eq!(s.share_link, format!("berrycode://collab/{}", s.session_id));
    assert_eq!(s.collaborators.len(), 1);
    assert!(s.collaborators[0].is_self);
    assert_eq!(s.collaborators[0].color, [66, 133, 244]);
    assert!(s.remote_collaborators().is_empty());
}

#[test]
fn joining_then_leaving_resets_the_session() {
    let mut s = CollabState::default();
    s.join_session("abcd1234");
    assert_eq!(s.status, CollabStatus::Connected);
    assert_eq!(s.session_id, "abcd1234");
    s.collaborators.push(Collaborator {
        id: "r1".to_string(),
        name: "Remote".to_string(),
        color: [1, 2, 3],
        cursor_line: 4,
        cursor_col: 5,
        file_path: Some("src/main.rs".to_string()),
        is_self: false,
    });
    assert_eq!(s.remote_collaborators().len(), 1);
    assert_eq!(s.remote_cursors("src/main.rs"), vec![(4, 5, [1, 2, 3], "Remote")]);
    assert!(s.remote_cursors("src/lib.rs").is_empty());
    s.leave_session();
    assert_eq!(s.status, CollabStatus::Inactive);
    assert!(s.collaborators.is_empty());
    assert!(s.session_id.is_empty());
    assert_eq!(s.next_color_idx, 0);
}

#[test]
fn colours_cycle_through_the_palette() {
    let mut s = CollabState::default();
    s.next_color_idx = 8;
    s.join_session("x");
    assert_eq!(s.collaborators[0].color, [66, 133, 244]);
}

#[test]
fn bundle_id_comes_from_the_app_table() {
    assert_eq!(
        read_bundle_id_from_mobile_toml("[app]\nname = \"demo\"\nidentifier = \"com.example.demo\"\n"),
        Some("com.example.demo".to_string())
    );
    assert_eq!(read_bundle_id_from_mobile_toml("[app]\nidentifier = \"\"\n"), None);
    assert_eq!(read_bundle_id_from_mobile_toml("[app]\nidentifier = 3\n"), None);
    assert_eq!(read_bundle_id_from_mobile_toml("this is = not [toml"), None);
    assert_eq!(read_bundle_id_from_mobile_toml("[other]\nidentifier = \"x\"\n"), None);
    assert_eq!(bundle_id_from_identifier(Some("a".to_string())), Some("a".to_string()));
    assert_eq!(bundle_id_from_identifier(Some(String::new())), None);
}
