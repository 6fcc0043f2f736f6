//! The editor's colour themes: the palette of each theme and the accessors
//! the UI reads colours through.
use vstd::prelude::*;

verus! {

/// The visual theme preset.
#[derive(Debug, Clone, Copy, PartialEq, Eq, Default, Structural)]
pub enum ThemeMode {
    #[default]
    Dark,
    Light,
    HighContrast,
}

/// An opaque RGB colour.
#[derive(Debug, Clone, Copy, PartialEq, Eq, Structural)]
pub struct Rgb {
    pub r: u8,
    pub g: u8,
    pub b: u8,
}

/// The colours of one theme.
#[allow(non_snake_case)]
#[derive(Debug, Clone, Copy, PartialEq, Eq, Structural)]
pub struct Palette {
    pub EDITOR_BG: Rgb,
    pub SIDEBAR_BG: Rgb,
    pub ACTIVITY_BAR_BG: Rgb,
    pub TOP_BAR_BG: Rgb,
    pub STATUS_BAR_BG: Rgb,
    pub TEXT_DEFAULT: Rgb,
    pub TEXT_MUTED: Rgb,
    pub BORDER: Rgb,
    pub PANEL_BORDER: Rgb,
    pub CONTROL_BG: Rgb,
    pub CONTROL_BORDER: Rgb,
    pub HOVER_BG: Rgb,
    pub ACTIVE_BG: Rgb,
    pub ACCENT: Rgb,
    pub ACCENT_HOVER: Rgb,
    pub FOCUS_BORDER: Rgb,
    pub SETTINGS_HINT: Rgb,
}

pub open spec fn dark_palette() -> Palette {
    Palette {
        EDITOR_BG: Rgb { r: 25, g: 26, b: 28 },
        SIDEBAR_BG: Rgb { r: 25, g: 26, b: 28 },
        ACTIVITY_BAR_BG: Rgb { r: 25, g: 26, b: 28 },
        TOP_BAR_BG: Rgb { r: 48, g: 49, b: 52 },
        STATUS_BAR_BG: Rgb { r: 25, g: 26, b: 28 },
        TEXT_DEFAULT: Rgb { r: 212, g: 212, b: 212 },
        TEXT_MUTED: Rgb { r: 153, g: 153, b: 153 },
        BORDER: Rgb { r: 60, g: 60, b: 60 },
        PANEL_BORDER: Rgb { r: 43, g: 43, b: 43 },
        CONTROL_BG: Rgb { r: 60, g: 60, b: 60 },
        CONTROL_BORDER: Rgb { r: 86, g: 86, b: 86 },
        HOVER_BG: Rgb { r: 45, g: 45, b: 45 },
        ACTIVE_BG: Rgb { r: 55, g: 55, b: 61 },
        ACCENT: Rgb { r: 0, g: 122, b: 204 },
        ACCENT_HOVER: Rgb { r: 17, g: 119, b: 187 },
        FOCUS_BORDER: Rgb { r: 0, g: 127, b: 212 },
        SETTINGS_HINT: Rgb { r: 128, g: 128, b: 128 },
    }
}

pub open spec fn light_palette() -> Palette {
    Palette {
        EDITOR_BG: Rgb { r: 255, g: 255, b: 255 },
        SIDEBAR_BG: Rgb { r: 243, g: 243, b: 243 },
        ACTIVITY_BAR_BG: Rgb { r: 245, g: 245, b: 245 },
        TOP_BAR_BG: Rgb { r: 221, g: 221, b: 221 },
        STATUS_BAR_BG: Rgb { r: 0, g: 122, b: 204 },
        TEXT_DEFAULT: Rgb { r: 34, g: 34, b: 34 },
        TEXT_MUTED: Rgb { r: 96, g: 96, b: 96 },
        BORDER: Rgb { r: 200, g: 200, b: 200 },
        PANEL_BORDER: Rgb { r: 225, g: 225, b: 225 },
        CONTROL_BG: Rgb { r: 245, g: 245, b: 245 },
        CONTROL_BORDER: Rgb { r: 190, g: 190, b: 190 },
        HOVER_BG: Rgb { r: 230, g: 230, b: 230 },
        ACTIVE_BG: Rgb { r: 210, g: 224, b: 244 },
        ACCENT: Rgb { r: 0, g: 102, b: 184 },
        ACCENT_HOVER: Rgb { r: 0, g: 87, b: 158 },
        FOCUS_BORDER: Rgb { r: 0, g: 102, b: 184 },
        SETTINGS_HINT: Rgb { r: 110, g: 110, b: 110 },
    }
}

pub open spec fn high_contrast_palette() -> Palette {
    Palette {
        EDITOR_BG: Rgb { r: 0, g: 0, b: 0 },
        SIDEBAR_BG: Rgb { r: 0, g: 0, b: 0 },
        ACTIVITY_BAR_BG: Rgb { r: 0, g: 0, b: 0 },
        TOP_BAR_BG: Rgb { r: 0, g: 0, b: 0 },
        STATUS_BAR_BG: Rgb { r: 0, g: 0, b: 0 },
        TEXT_DEFAULT: Rgb { r: 255, g: 255, b: 255 },
        TEXT_MUTED: Rgb { r: 200, g: 200, b: 200 },
        BORDER: Rgb { r: 110, g: 110, b: 110 },
        PANEL_BORDER: Rgb { r: 110, g: 110, b: 110 },
        CONTROL_BG: Rgb { r: 20, g: 20, b: 20 },
        CONTROL_BORDER: Rgb { r: 150, g: 150, b: 150 },
        HOVER_BG: Rgb { r: 40, g: 40, b: 40 },
        ACTIVE_BG: Rgb { r: 60, g: 60, b: 60 },
        ACCENT: Rgb { r: 252, g: 200, b: 0 },
        ACCENT_HOVER: Rgb { r: 255, g: 220, b: 60 },
        FOCUS_BORDER: Rgb { r: 255, g: 215, b: 0 },
        SETTINGS_HINT: Rgb { r: 200, g: 200, b: 200 },
    }
}

/// The palette of a theme index: 1 is Light, 2 High Contrast, any other
/// Dark.
pub open spec fn theme_palette(index: u8) -> Palette {
    if index == 1 {
        light_palette()
    } else if index == 2 {
        high_contrast_palette()
    } else {
        dark_palette()
    }
}

/// The index a theme is stored under: Dark 0, Light 1, High Contrast 2.
pub open spec fn theme_index(mode: ThemeMode) -> u8 {
    match mode {
        ThemeMode::Dark => 0,
        ThemeMode::Light => 1,
        ThemeMode::HighContrast => 2,
    }
}

/// The active theme.
#[derive(Debug, Clone, Copy)]
pub struct UiTheme {
    pub index: u8,
}

impl Default for UiTheme {
    /// Dark.
    fn default() -> (t: Self)
        ensures
            t.index == 0,
    {
        UiTheme { index: 0 }
    }
}

/// Makes `mode` the active theme.
pub fn set_theme(theme: &mut UiTheme, mode: ThemeMode)
    ensures
        final(theme).index == theme_index(mode),
        theme_palette(final(theme).index) == theme_palette(theme_index(mode)),
{
    let idx: u8 = match mode {
        ThemeMode::Dark => 0,
        ThemeMode::Light => 1,
        ThemeMode::HighContrast => 2,
    };
    theme.index = idx;
}

fn dark() -> (p: Palette)
    ensures
        p == dark_palette(),
{
    Palette {
        EDITOR_BG: Rgb { r: 25, g: 26, b: 28 },
        SIDEBAR_BG: Rgb { r: 25, g: 26, b: 28 },
        ACTIVITY_BAR_BG: Rgb { r: 25, g: 26, b: 28 },
        TOP_BAR_BG: Rgb { r: 48, g: 49, b: 52 },
        STATUS_BAR_BG: Rgb { r: 25, g: 26, b: 28 },
        TEXT_DEFAULT: Rgb { r: 212, g: 212, b: 212 },
        TEXT_MUTED: Rgb { r: 153, g: 153, b: 153 },
        BORDER: Rgb { r: 60, g: 60, b: 60 },
        PANEL_BORDER: Rgb { r: 43, g: 43, b: 43 },
        CONTROL_BG: Rgb { r: 60, g: 60, b: 60 },
        CONTROL_BORDER: Rgb { r: 86, g: 86, b: 86 },
        HOVER_BG: Rgb { r: 45, g: 45, b: 45 },
        ACTIVE_BG: Rgb { r: 55, g: 55, b: 61 },
        ACCENT: Rgb { r: 0, g: 122, b: 204 },
        ACCENT_HOVER: Rgb { r: 17, g: 119, b: 187 },
        FOCUS_BORDER: Rgb { r: 0, g: 127, b: 212 },
        SETTINGS_HINT: Rgb { r: 128, g: 128, b: 128 },
    }
}

fn light() -> (p: Palette)
    ensures
        p == light_palette(),
{
    Palette {
        EDITOR_BG: Rgb { r: 255, g: 255, b: 255 },
        SIDEBAR_BG: Rgb { r: 243, g: 243, b: 243 },
        ACTIVITY_BAR_BG: Rgb { r: 245, g: 245, b: 245 },
        TOP_BAR_BG: Rgb { r: 221, g: 221, b: 221 },
        STATUS_BAR_BG: Rgb { r: 0, g: 122, b: 204 },
        TEXT_DEFAULT: Rgb { r: 34, g: 34, b: 34 },
        TEXT_MUTED: Rgb { r: 96, g: 96, b: 96 },
        BORDER: Rgb { r: 200, g: 200, b: 200 },
        PANEL_BORDER: Rgb { r: 225, g: 225, b: 225 },
        CONTROL_BG: Rgb { r: 245, g: 245, b: 245 },
        CONTROL_BORDER: Rgb { r: 190, g: 190, b: 190 },
        HOVER_BG: Rgb { r: 230, g: 230, b: 230 },
        ACTIVE_BG: Rgb { r: 210, g: 224, b: 244 },
        ACCENT: Rgb { r: 0, g: 102, b: 184 },
        ACCENT_HOVER: Rgb { r: 0, g: 87, b: 158 },
        FOCUS_BORDER: Rgb { r: 0, g: 102, b: 184 },
        SETTINGS_HINT: Rgb { r: 110, g: 110, b: 110 },
    }
}

fn high_contrast() -> (p: Palette)
    ensures
        p == high_contrast_palette(),
{
    Palette {
        EDITOR_BG: Rgb { r: 0, g: 0, b: 0 },
        SIDEBAR_BG: Rgb { r: 0, g: 0, b: 0 },
        ACTIVITY_BAR_BG: Rgb { r: 0, g: 0, b: 0 },
        TOP_BAR_BG: Rgb { r: 0, g: 0, b: 0 },
        STATUS_BAR_BG: Rgb { r: 0, g: 0, b: 0 },
        TEXT_DEFAULT: Rgb { r: 255, g: 255, b: 255 },
        TEXT_MUTED: Rgb { r: 200, g: 200, b: 200 },
        BORDER: Rgb { r: 110, g: 110, b: 110 },
        PANEL_BORDER: Rgb { r: 110, g: 110, b: 110 },
        CONTROL_BG: Rgb { r: 20, g: 20, b: 20 },
        CONTROL_BORDER: Rgb { r: 150, g: 150, b: 150 },
        HOVER_BG: Rgb { r: 40, g: 40, b: 40 },
        ACTIVE_BG: Rgb { r: 60, g: 60, b: 60 },
        ACCENT: Rgb { r: 252, g: 200, b: 0 },
        ACCENT_HOVER: Rgb { r: 255, g: 220, b: 60 },
        FOCUS_BORDER: Rgb { r: 255, g: 215, b: 0 },
        SETTINGS_HINT: Rgb { r: 200, g: 200, b: 200 },
    }
}

impl UiTheme {
    /// The active palette.
    pub fn palette(&self) -> (p: Palette)
        ensures
            p == theme_palette(self.index),
    {
        if self.index == 1 {
            light()
        } else if self.index == 2 {
            high_contrast()
        } else {
            dark()
        }
    }
}

/// The active palette's `EDITOR_BG`.
#[allow(non_snake_case)]
pub fn EDITOR_BG(theme: &UiTheme) -> (c: Rgb)
    ensures
        c == theme_palette(theme.index).EDITOR_BG,
{
    theme.palette().EDITOR_BG
}

/// The active palette's `SIDEBAR_BG`.
#[allow(non_snake_case)]
pub fn SIDEBAR_BG(theme: &UiTheme) -> (c: Rgb)
    ensures
        c == theme_palette(theme.index).SIDEBAR_BG,
{
    theme.palette().SIDEBAR_BG
}

/// The active palette's `ACTIVITY_BAR_BG`.
#[allow(non_snake_case)]
pub fn ACTIVITY_BAR_BG(theme: &UiTheme) -> (c: Rgb)
    ensures
        c == theme_palette(theme.index).ACTIVITY_BAR_BG,
{
    theme.palette().ACTIVITY_BAR_BG
}

/// The active palette's `TOP_BAR_BG`.
#[allow(non_snake_case)]
pub fn TOP_BAR_BG(theme: &UiTheme) -> (c: Rgb)
    ensures
        c == theme_palette(theme.index).TOP_BAR_BG,
{
    theme.palette().TOP_BAR_BG
}

/// The active palette's `STATUS_BAR_BG`.
#[allow(non_snake_case)]
pub fn STATUS_BAR_BG(theme: &UiTheme) -> (c: Rgb)
    ensures
        c == theme_palette(theme.index).STATUS_BAR_BG,
{
    theme.palette().STATUS_BAR_BG
}

/// The active palette's `TEXT_DEFAULT`.
#[allow(non_snake_case)]
pub fn TEXT_DEFAULT(theme: &UiTheme) -> (c: Rgb)
    ensures
        c == theme_palette(theme.index).TEXT_DEFAULT,
{
    theme.palette().TEXT_DEFAULT
}

/// The active palette's `TEXT_MUTED`.
#[allow(non_snake_case)]
pub fn TEXT_MUTED(theme: &UiTheme) -> (c: Rgb)
    ensures
        c == theme_palette(theme.index).TEXT_MUTED,
{
    theme.palette().TEXT_MUTED
}

/// The active palette's `BORDER`.
#[allow(non_snake_case)]
pub fn BORDER(theme: &UiTheme) -> (c: Rgb)
    ensures
        c == theme_palette(theme.index).BORDER,
{
    theme.palette().BORDER
}

/// The active palette's `PANEL_BORDER`.
#[allow(non_snake_case)]
pub fn PANEL_BORDER(theme: &UiTheme) -> (c: Rgb)
    ensures
        c == theme_palette(theme.index).PANEL_BORDER,
{
    theme.palette().PANEL_BORDER
}

/// The active palette's `CONTROL_BG`.
#[allow(non_snake_case)]
pub fn CONTROL_BG(theme: &UiTheme) -> (c: Rgb)
    ensures
        c == theme_palette(theme.index).CONTROL_BG,
{
    theme.palette().CONTROL_BG
}

/// The active palette's `CONTROL_BORDER`.
#[allow(non_snake_case)]
pub fn CONTROL_BORDER(theme: &UiTheme) -> (c: Rgb)
    ensures
        c == theme_palette(theme.index).CONTROL_BORDER,
{
    theme.palette().CONTROL_BORDER
}

/// The active palette's `HOVER_BG`.
#[allow(non_snake_case)]
pub fn HOVER_BG(theme: &UiTheme) -> (c: Rgb)
    ensures
        c == theme_palette(theme.index).HOVER_BG,
{
    theme.palette().HOVER_BG
}

/// The active palette's `ACTIVE_BG`.
#[allow(non_snake_case)]
pub fn ACTIVE_BG(theme: &UiTheme) -> (c: Rgb)
    ensures
        c == theme_palette(theme.index).ACTIVE_BG,
{
    theme.palette().ACTIVE_BG
}

/// The active palette's `ACCENT`.
#[allow(non_snake_case)]
pub fn ACCENT(theme: &UiTheme) -> (c: Rgb)
    ensures
        c == theme_palette(theme.index).ACCENT,
{
    theme.palette().ACCENT
}

/// The active palette's `ACCENT_HOVER`.
#[allow(non_snake_case)]
pub fn ACCENT_HOVER(theme: &UiTheme) -> (c: Rgb)
    ensures
        c == theme_palette(theme.index).ACCENT_HOVER,
{
    theme.palette().ACCENT_HOVER
}

/// The active palette's `FOCUS_BORDER`.
#[allow(non_snake_case)]
pub fn FOCUS_BORDER(theme: &UiTheme) -> (c: Rgb)
    ensures
        c == theme_palette(theme.index).FOCUS_BORDER,
{
    theme.palette().FOCUS_BORDER
}

/// The active palette's `SETTINGS_HINT`.
#[allow(non_snake_case)]
pub fn SETTINGS_HINT(theme: &UiTheme) -> (c: Rgb)
    ensures
        c == theme_palette(theme.index).SETTINGS_HINT,
{
    theme.palette().SETTINGS_HINT
}

/// The active palette's `SIDEBAR_BG` (the settings panel's `SETTINGS_NAV_BG`).
#[allow(non_snake_case)]
pub fn SETTINGS_NAV_BG(theme: &UiTheme) -> (c: Rgb)
    ensures
        c == theme_palette(theme.index).SIDEBAR_BG,
{
    SIDEBAR_BG(theme)
}

/// The active palette's `EDITOR_BG` (the settings panel's `SETTINGS_BG`).
#[allow(non_snake_case)]
pub fn SETTINGS_BG(theme: &UiTheme) -> (c: Rgb)
    ensures
        c == theme_palette(theme.index).EDITOR_BG,
{
    EDITOR_BG(theme)
}

/// The active palette's `CONTROL_BG` (the settings panel's `SETTINGS_SEARCH_BG`).
#[allow(non_snake_case)]
pub fn SETTINGS_SEARCH_BG(theme: &UiTheme) -> (c: Rgb)
    ensures
        c == theme_palette(theme.index).CONTROL_BG,
{
    CONTROL_BG(theme)
}

/// The active palette's `TEXT_MUTED` (the settings panel's `SETTINGS_DESC`).
#[allow(non_snake_case)]
pub fn SETTINGS_DESC(theme: &UiTheme) -> (c: Rgb)
    ensures
        c == theme_palette(theme.index).TEXT_MUTED,
{
    TEXT_MUTED(theme)
}

/// The active palette's `TEXT_DEFAULT` (the settings panel's `SETTINGS_HEADER`).
#[allow(non_snake_case)]
pub fn SETTINGS_HEADER(theme: &UiTheme) -> (c: Rgb)
    ensures
        c == theme_palette(theme.index).TEXT_DEFAULT,
{
    TEXT_DEFAULT(theme)
}

/// The active palette's `BORDER` (the settings panel's `SETTINGS_CARD_BORDER`).
#[allow(non_snake_case)]
pub fn SETTINGS_CARD_BORDER(theme: &UiTheme) -> (c: Rgb)
    ensures
        c == theme_palette(theme.index).BORDER,
{
    BORDER(theme)
}

/// The active palette's `ACCENT` (the settings panel's `SETTINGS_ACCENT`).
#[allow(non_snake_case)]
pub fn SETTINGS_ACCENT(theme: &UiTheme) -> (c: Rgb)
    ensures
        c == theme_palette(theme.index).ACCENT,
{
    ACCENT(theme)
}

/// Two themes give different editor backgrounds and text colours, and the
/// light background is brighter than the dark one.
pub proof fn lemma_dark_and_light_differ()
    ensures
        theme_palette(theme_index(ThemeMode::Dark)).EDITOR_BG != theme_palette(
            theme_index(ThemeMode::Light),
        ).EDITOR_BG,
        theme_palette(theme_index(ThemeMode::Dark)).TEXT_DEFAULT != theme_palette(
            theme_index(ThemeMode::Light),
        ).TEXT_DEFAULT,
        theme_palette(theme_index(ThemeMode::Light)).EDITOR_BG.r > theme_palette(
            theme_index(ThemeMode::Dark),
        ).EDITOR_BG.r,
{
}

/// High Contrast draws pure white text on a pure black editor.
pub proof fn lemma_high_contrast_is_black_and_white()
    ensures
        theme_palette(theme_index(ThemeMode::HighContrast)).EDITOR_BG == (Rgb { r: 0, g: 0, b: 0 }),
        theme_palette(theme_index(ThemeMode::HighContrast)).TEXT_DEFAULT == (Rgb { r: 255, g: 255, b: 255 }),
{
}


/// The egui visuals of a theme: panel fill, text, accent (links),
/// selection fill (RGBA, premultiplied) and selection text, and whether the
/// light base style is used.
#[derive(Debug, Clone, Copy)]
pub struct ThemeVisualColors {
    pub panel: Rgb,
    pub text: Rgb,
    pub accent: Rgb,
    pub selection_fill: [u8; 4],
    pub selection_text: Rgb,
    pub light_base: bool,
}

pub open spec fn rgb3(c: Rgb) -> (u8, u8, u8) {
    (c.r, c.g, c.b)
}

/// The visuals of each theme.
pub open spec fn visual_colors_spec(mode: ThemeMode) -> (
    (u8, u8, u8),
    (u8, u8, u8),
    (u8, u8, u8),
    [u8; 4],
    (u8, u8, u8),
    bool,
) {
    match mode {
        ThemeMode::Dark => ((25, 26, 28), (212, 212, 212), (75, 110, 175), [20, 40, 70, 130], (212, 212, 212), false),
        ThemeMode::Light => ((245, 246, 248), (35, 38, 44), (50, 100, 200), [70, 130, 220, 110], (35, 38, 44), true),
        ThemeMode::HighContrast => ((0, 0, 0), (255, 255, 255), (0, 200, 255), [0, 200, 255, 120], (255, 255, 255), false),
    }
}

/// The colours egui is styled with for a theme.
pub fn visuals_for_theme(mode: ThemeMode) -> (r: ThemeVisualColors)
    ensures
        (rgb3(r.panel), rgb3(r.text), rgb3(r.accent), r.selection_fill, rgb3(r.selection_text), r.light_base)
            == visual_colors_spec(mode),
{
    match mode {
        ThemeMode::Dark => ThemeVisualColors {
            panel: Rgb { r: 25, g: 26, b: 28 },
            text: Rgb { r: 212, g: 212, b: 212 },
            accent: Rgb { r: 75, g: 110, b: 175 },
            selection_fill: [20, 40, 70, 130],
            selection_text: Rgb { r: 212, g: 212, b: 212 },
            light_base: false,
        },
        ThemeMode::Light => ThemeVisualColors {
            panel: Rgb { r: 245, g: 246, b: 248 },
            text: Rgb { r: 35, g: 38, b: 44 },
            accent: Rgb { r: 50, g: 100, b: 200 },
            selection_fill: [70, 130, 220, 110],
            selection_text: Rgb { r: 35, g: 38, b: 44 },
            light_base: true,
        },
        ThemeMode::HighContrast => ThemeVisualColors {
            panel: Rgb { r: 0, g: 0, b: 0 },
            text: Rgb { r: 255, g: 255, b: 255 },
            accent: Rgb { r: 0, g: 200, b: 255 },
            selection_fill: [0, 200, 255, 120],
            selection_text: Rgb { r: 255, g: 255, b: 255 },
            light_base: false,
        },
    }
}

} // verus!
