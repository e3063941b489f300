use vstd::prelude::*;

verus! {

/// The colour theme a window is drawn in.
#[derive(Clone, Copy, Debug, PartialEq, Eq, Structural)]
pub enum Theme {
    Light,
    Dark,
}

/// Fill colour (0xAARRGGBB) of a window drawn in the light theme.
pub const WHITE: u32 = 0xffff_ffff;

/// Fill colour (0xAARRGGBB) of a window drawn in the dark theme.
pub const DARK_GRAY: u32 = 0xff18_1818;

/// The colour a window in `theme` is filled with.
pub open spec fn spec_theme_color(theme: Theme) -> u32 {
    match theme {
        Theme::Light => WHITE,
        Theme::Dark => DARK_GRAY,
    }
}

/// The theme actually used for drawing: the requested one, else the one the
/// system reports, else dark.
pub open spec fn spec_effective_theme(requested: Option<Theme>, system: Option<Theme>) -> Theme {
    match requested {
        Some(t) => t,
        None => match system {
            Some(t) => t,
            None => Theme::Dark,
        },
    }
}

/// The fill colour for a window drawn in `theme`.
pub fn theme_color(theme: Theme) -> (color: u32)
    ensures
        color == spec_theme_color(theme),
{
    match theme {
        Theme::Light => WHITE,
        Theme::Dark => DARK_GRAY,
    }
}

/// Resolves the theme to draw with from an explicit request and the theme
/// the system reports (if any); dark is the fallback.
pub fn effective_theme(requested: Option<Theme>, system: Option<Theme>) -> (theme: Theme)
    ensures
        theme == spec_effective_theme(requested, system),
{
    match requested {
        Some(t) => t,
        None => match system {
            Some(t) => t,
            None => Theme::Dark,
        },
    }
}

/// An explicit request always wins; without one the system's theme is used
/// whenever the system reports one; only when neither is known is the window
/// drawn dark.
pub proof fn lemma_effective_theme_choice(requested: Option<Theme>, system: Option<Theme>)
    ensures
        requested matches Some(t) ==> spec_effective_theme(requested, system) == t,
        requested is None ==> (system matches Some(t) ==> spec_effective_theme(requested, system) == t),
        requested is None && system is None ==> spec_effective_theme(requested, system) == Theme::Dark,
{
}

/// A light window is filled opaque white and a dark one opaque dark grey;
/// the two themes never share a colour.
pub proof fn lemma_theme_colors(theme: Theme)
    ensures
        theme == Theme::Light ==> spec_theme_color(theme) == 0xffff_ffffu32,
        theme == Theme::Dark ==> spec_theme_color(theme) == 0xff18_1818u32,
        spec_theme_color(Theme::Light) != spec_theme_color(Theme::Dark),
{
}

} // verus!
