use berrycode::git_view::{
    group_heading, stage_action_icon, staging_groups, status_file_name, status_letter,
    status_letter_color, GitFileStatus,
};

fn file(path: &str, status: &str, is_staged: bool) -> GitFileStatus {
    GitFileStatus { path: path.to_string(), status: status.to_string(), is_staged }
}

#[test]
fn status_letters_and_colours() {
    assert_eq!(status_letter("modified"), "M");
    assert_eq!(status_letter("added"), "A");
    assert_eq!(status_letter("deleted"), "D");
    assert_eq!(status_letter("renamed"), "R");
    assert_eq!(status_letter("untracked"), "?");
    let c = status_letter_color("added");
    assert_eq!((c.r, c.g, c.b), (106, 180, 89));
    let c = status_letter_color("renamed");
    assert_eq!((c.r, c.g, c.b), (220, 220, 220));
}

#[test]
fn files_are_grouped_by_staging_in_order() {
    let files = vec![
        file("src/a.rs", "modified", false),
        file("src/b.rs", "added", true),
        file("README.md", "deleted", false),
        file("c.rs", "modified", true),
    ];
    let (staged, unstaged) = staging_groups(&files);
    assert_eq!(staged, vec![1, 3]);
    assert_eq!(unstaged, vec![0, 2]);
    assert_eq!(group_heading(true, staged.len()), "Staged Changes (2)");
    assert_eq!(group_heading(false, 0), "Unstaged Changes (0)");
    assert_eq!(staging_groups(&Vec::new()), (Vec::new(), Vec::new()));
}

#[test]
fn rows_show_the_file_name_and_the_staging_action() {
    assert_eq!(status_file_name("src/app/git.rs"), "git.rs");
    assert_eq!(status_file_name("Cargo.toml"), "Cargo.toml");
    assert_eq!(stage_action_icon(true), "\u{eb2a}");
    assert_eq!(stage_action_icon(false), "\u{ea7a}");
}
