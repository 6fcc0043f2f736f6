# berrycode

The decision-making core of the BerryCode game editor, written in Verus and
proved against its contracts.

## Layout

- `src/` — the verified library. Each module holds one part of the editor's
  logic, stated over spec functions and views:
  - text handling shared by the others (`text`), sorting (`sorting`);
  - the mobile toolchain: data model (`mobile_types`), probes of tool output
    (`probe`), the doctor report and panel state (`mobile_toolchain`), the
    panel's rows and buttons (`toolchain_panel`), one-click runs through
    cargo-mobile2 (`one_click`), device runs (`runner`), log classification
    (`log_relay`), packaging (`packager`), Play Console uploads
    (`play_console`) and the iOS / Android project skeletons
    (`project_emit`);
  - the editor: IME and typing rules (`editor`), completions (`completion`),
    language-server answers (`lsp_view`, `inlay_hints`, `definition`),
    the minimap (`minimap`), git views (`git_view`), key bindings (`keymap`),
    translations (`i18n`), themes and colours (`ui_colors`,
    `component_colors`), display profiles (`display_profile`), live
    collaboration (`live_collab`), the workspace shell (`workspace`), the
    in-editor game view (`game_view`) and 3-D model topology
    (`model_preview`).
- `tests/` — the tests, run against the compiled library.
- `app/` — the shell around the library: running commands, reading and
  writing files, persistence through serde, and the parts that need
  floating point.

Calls into outside crates (`toml`, `uuid`, `whoami`, `regex`) and into the
few std functions that vstd leaves unspecified go through small trusted
wrappers whose contracts are stated beside them.
