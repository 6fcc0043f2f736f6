//! Colours for shared UI components, forwarded from the active palette.
use crate::ui_colors::{theme_palette, Rgb, UiTheme};
use vstd::prelude::*;

verus! {

/// The component colour `ACCENT`: the active palette's `ACCENT`.
#[allow(non_snake_case)]
pub fn ACCENT(theme: &UiTheme) -> (c: Rgb)
    ensures
        c == theme_palette(theme.index).ACCENT,
{
    crate::ui_colors::ACCENT(theme)
}

/// The component colour `TAB_ACTIVE`: the active palette's `TEXT_DEFAULT`.
#[allow(non_snake_case)]
pub fn TAB_ACTIVE(theme: &UiTheme) -> (c: Rgb)
    ensures
        c == theme_palette(theme.index).TEXT_DEFAULT,
{
    crate::ui_colors::TEXT_DEFAULT(theme)
}

/// The component colour `TAB_INACTIVE`: the active palette's `TEXT_MUTED`.
#[allow(non_snake_case)]
pub fn TAB_INACTIVE(theme: &UiTheme) -> (c: Rgb)
    ensures
        c == theme_palette(theme.index).TEXT_MUTED,
{
    crate::ui_colors::TEXT_MUTED(theme)
}

/// The component colour `BUTTON_TEXT`: the active palette's `TEXT_DEFAULT`.
#[allow(non_snake_case)]
pub fn BUTTON_TEXT(theme: &UiTheme) -> (c: Rgb)
    ensures
        c == theme_palette(theme.index).TEXT_DEFAULT,
{
    crate::ui_colors::TEXT_DEFAULT(theme)
}

/// The component colour `BUTTON_BG`: the active palette's `CONTROL_BG`.
#[allow(non_snake_case)]
pub fn BUTTON_BG(theme: &UiTheme) -> (c: Rgb)
    ensures
        c == theme_palette(theme.index).CONTROL_BG,
{
    crate::ui_colors::CONTROL_BG(theme)
}

/// The component colour `HOVER_BG`: the active palette's `HOVER_BG`.
#[allow(non_snake_case)]
pub fn HOVER_BG(theme: &UiTheme) -> (c: Rgb)
    ensures
        c == theme_palette(theme.index).HOVER_BG,
{
    crate::ui_colors::HOVER_BG(theme)
}

/// The component colour `INPUT_BG`: the active palette's `CONTROL_BG`.
#[allow(non_snake_case)]
pub fn INPUT_BG(theme: &UiTheme) -> (c: Rgb)
    ensures
        c == theme_palette(theme.index).CONTROL_BG,
{
    crate::ui_colors::CONTROL_BG(theme)
}

/// The component colour `TEXT_DIM`: the active palette's `TEXT_MUTED`.
#[allow(non_snake_case)]
pub fn TEXT_DIM(theme: &UiTheme) -> (c: Rgb)
    ensures
        c == theme_palette(theme.index).TEXT_MUTED,
{
    crate::ui_colors::TEXT_MUTED(theme)
}

} // verus!
