pub mod text;
pub mod log_relay;
pub mod mobile_types;
pub mod probe;
pub mod runner;
pub mod play_console;
pub mod packager;
pub mod one_click;
pub mod keymap;
pub mod live_collab;
pub mod ui_colors;
pub mod component_colors;
pub mod display_profile;
pub mod sorting;
pub mod editor;
pub mod i18n;
pub mod model_preview;
pub mod mobile_toolchain;
pub mod project_emit;
pub mod completion;
pub mod git_view;
pub mod inlay_hints;
pub mod minimap;
pub mod definition;
pub mod workspace;
pub mod game_view;
pub mod toolchain_panel;
pub mod lsp_view;
