use berrycode::lsp_view::{
    completion_kind_name, definition_choice, definitions_heading, diagnostic_location,
    diagnostics_on_line, hover_text, is_snippet_format, is_toolchain_source, jump_plan,
    problems_heading, project_search_patterns, reference_label, references_heading,
    severity_from_lsp, severity_style, short_message, DiagnosticSeverity, HoverBody, HoverPiece,
    LspDiagnostic, LspLocation, macro_expand_status, macro_expansion,
};

fn diag(line: usize, column: usize, source: Option<&str>) -> LspDiagnostic {
    LspDiagnostic {
        line,
        column,
        severity: DiagnosticSeverity::Warning,
        message: "unused variable".to_string(),
        source: source.map(|s| s.to_string()),
    }
}

fn loc(path: &str, line: usize, column: usize) -> LspLocation {
    LspLocation { file_path: path.to_string(), line, column }
}

#[test]
fn completion_kinds_follow_the_protocol_numbers() {
    assert_eq!(completion_kind_name(Some(1)), "text");
    assert_eq!(completion_kind_name(Some(3)), "function");
    assert_eq!(completion_kind_name(Some(20)), "enum_member");
    assert_eq!(completion_kind_name(Some(25)), "type_parameter");
    assert_eq!(completion_kind_name(Some(26)), "unknown");
    assert_eq!(completion_kind_name(None), "unknown");
    assert!(is_snippet_format(Some(2)));
    assert!(!is_snippet_format(Some(1)));
    assert!(!is_snippet_format(None));
}

#[test]
fn diagnostic_severities_and_styles() {
    assert_eq!(severity_from_lsp(Some(1)), DiagnosticSeverity::Error);
    assert_eq!(severity_from_lsp(Some(2)), DiagnosticSeverity::Warning);
    assert_eq!(severity_from_lsp(Some(3)), DiagnosticSeverity::Information);
    assert_eq!(severity_from_lsp(Some(4)), DiagnosticSeverity::Hint);
    assert_eq!(severity_from_lsp(None), DiagnosticSeverity::Error);
    let (icon, c) = severity_style(DiagnosticSeverity::Warning);
    assert_eq!(icon, "⚠️");
    assert_eq!((c.r, c.g, c.b), (255, 200, 100));
}

#[test]
fn problems_panel_rows() {
    let ds = vec![diag(3, 0, Some("src/main.rs")), diag(7, 4, None), diag(3, 9, Some("lib.rs"))];
    assert_eq!(diagnostics_on_line(&ds, 3), vec![0, 2]);
    assert_eq!(diagnostics_on_line(&ds, 5), Vec::<usize>::new());
    assert_eq!(problems_heading(ds.len()), "Problems (3)");
    assert_eq!(diagnostic_location(&ds[0]), "main.rs:4:1");
    assert_eq!(diagnostic_location(&ds[1]), "unknown:8:5");
    let long = "x".repeat(90);
    assert_eq!(short_message(&long), format!("{}...", "x".repeat(77)));
    assert_eq!(short_message("short"), "short");
}

#[test]
fn hover_text_fences_code_and_joins_pieces() {
    let code = HoverPiece::Code { language: "rust".to_string(), value: "fn main()".to_string() };
    assert_eq!(hover_text(&HoverBody::Single(code.clone())), "```rust\nfn main()\n```");
    let both = HoverBody::Several(vec![code, HoverPiece::Plain("Entry point".to_string())]);
    assert_eq!(hover_text(&both), "```rust\nfn main()\n```\n\nEntry point");
    assert_eq!(hover_text(&HoverBody::Markup("**bold**".to_string())), "**bold**");
    assert_eq!(hover_text(&HoverBody::Several(Vec::new())), "");
}

#[test]
fn definition_and_reference_lists() {
    assert_eq!(definitions_heading(2), "2 definitions found:");
    assert_eq!(definition_choice(0, &loc("/p/src/app.rs", 41, 3)), "1  app.rs:42  (/p/src/app.rs)");
    assert_eq!(references_heading(0), "0 references found");
    assert_eq!(reference_label(&loc("/p/src/app.rs", 9, 0)), "app.rs:10:1");
}

#[test]
fn jumps_reuse_open_tabs_and_protect_toolchain_sources() {
    let open = vec!["/p/a.rs".to_string(), "/p/b.rs".to_string(), "/p/a.rs".to_string()];
    let p = jump_plan(&open, &loc("/p/a.rs", 5, 2));
    assert_eq!(p.open_tab, Some(0));
    assert!(!p.read_only);
    assert_eq!((p.line, p.column), (5, 2));
    assert_eq!(p.status, "✅ Jumped to a.rs");
    let std_path = "/home/u/.rustup/toolchains/stable/lib/rustlib/src/rust/library/core/src/option.rs";
    assert!(is_toolchain_source(std_path));
    assert!(is_toolchain_source("C:\\Users\\u\\.rustup\\x.rs"));
    assert!(!is_toolchain_source("/p/a.rs"));
    let p = jump_plan(&open, &loc(std_path, 1, 0));
    assert_eq!(p.open_tab, None);
    assert!(p.read_only);
    assert_eq!(p.status, "✅ Jumped to option.rs");
}

#[test]
fn project_search_tries_public_items_first() {
    let pats = project_search_patterns("Player");
    assert_eq!(pats.len(), 12);
    assert_eq!(pats[0], "pub fn Player");
    assert_eq!(pats[5], "pub const Player");
    assert_eq!(pats[6], "fn Player");
    assert_eq!(pats[11], "const Player");
}

#[test]
fn macro_expansion_needs_a_server_and_a_rust_file() {
    assert_eq!(macro_expand_status(false, "/p/src/main.rs"), (false, "LSP not connected"));
    assert_eq!(macro_expand_status(true, "/p/Cargo.toml"), (false, "Macro expansion only works for Rust files"));
    assert_eq!(macro_expand_status(true, "/p/src/main.rs"), (true, "Expanding macro..."));
}

#[test]
fn macro_expansion_answers() {
    assert_eq!(macro_expansion(false, Some("vec".into()), Some("...".into())), None);
    assert_eq!(macro_expansion(true, Some("vec".into()), Some(String::new())), None);
    assert_eq!(macro_expansion(true, Some("vec".into()), None), None);
    assert_eq!(
        macro_expansion(true, None, Some("{ let x = 1; }".into())),
        Some(("macro".to_string(), "{ let x = 1; }".to_string()))
    );
    assert_eq!(
        macro_expansion(true, Some("vec".into()), Some("<[_]>::into_vec(...)".into())),
        Some(("vec".to_string(), "<[_]>::into_vec(...)".to_string()))
    );
}
