use vstd::prelude::*;
use crate::theme::Theme;

verus! {

/// Something a user can ask a window to do.
#[derive(Clone, Copy, Debug, PartialEq, Eq)]
pub enum Action {
    CloseWindow,
    ToggleCursorVisibility,
    CreateNewWindow,
    ToggleResizeIncrements,
    ToggleImeInput,
    ToggleDecorations,
    ToggleResizable,
    ToggleFullscreen,
    ToggleMaximize,
    Minimize,
    NextCursor,
    NextCustomCursor,
    CycleCursorGrab,
    PrintHelp,
    DragWindow,
    DragResizeWindow,
    ShowWindowMenu,
    /// Draw with the given theme, or with the system theme when `None`.
    SetTheme(Option<Theme>),
    RequestResize,
}

/// The one-line description of what an action does.
pub open spec fn spec_help(action: Action) -> Seq<char> {
    match action {
        Action::CloseWindow => "Close window"@,
        Action::ToggleCursorVisibility => "Hide cursor"@,
        Action::CreateNewWindow => "Create new window"@,
        Action::ToggleImeInput => "Toggle IME input"@,
        Action::ToggleDecorations => "Toggle decorations"@,
        Action::ToggleResizable => "Toggle window resizable state"@,
        Action::ToggleFullscreen => "Toggle fullscreen"@,
        Action::ToggleMaximize => "Maximize"@,
        Action::Minimize => "Minimize"@,
        Action::ToggleResizeIncrements => "Use resize increments when resizing window"@,
        Action::NextCursor => "Advance the cursor to the next value"@,
        Action::NextCustomCursor => "Advance custom cursor to the next value"@,
        Action::CycleCursorGrab => "Cycle through cursor grab mode"@,
        Action::PrintHelp => "Print help"@,
        Action::DragWindow => "Start window drag"@,
        Action::DragResizeWindow => "Start window drag-resize"@,
        Action::ShowWindowMenu => "Show window menu"@,
        Action::SetTheme(None) => "Change to the system theme"@,
        Action::SetTheme(Some(Theme::Light)) => "Change to a light theme"@,
        Action::SetTheme(Some(Theme::Dark)) => "Change to a dark theme"@,
        Action::RequestResize => "Request a resize"@,
    }
}

/// The name an action is displayed under: its variant, written as Rust's
/// `Debug` formatting writes it.
pub open spec fn spec_display_name(action: Action) -> Seq<char> {
    match action {
        Action::CloseWindow => "CloseWindow"@,
        Action::ToggleCursorVisibility => "ToggleCursorVisibility"@,
        Action::CreateNewWindow => "CreateNewWindow"@,
        Action::ToggleResizeIncrements => "ToggleResizeIncrements"@,
        Action::ToggleImeInput => "ToggleImeInput"@,
        Action::ToggleDecorations => "ToggleDecorations"@,
        Action::ToggleResizable => "ToggleResizable"@,
        Action::ToggleFullscreen => "ToggleFullscreen"@,
        Action::ToggleMaximize => "ToggleMaximize"@,
        Action::Minimize => "Minimize"@,
        Action::NextCursor => "NextCursor"@,
        Action::NextCustomCursor => "NextCustomCursor"@,
        Action::CycleCursorGrab => "CycleCursorGrab"@,
        Action::PrintHelp => "PrintHelp"@,
        Action::DragWindow => "DragWindow"@,
        Action::DragResizeWindow => "DragResizeWindow"@,
        Action::ShowWindowMenu => "ShowWindowMenu"@,
        Action::SetTheme(None) => "SetTheme(None)"@,
        Action::SetTheme(Some(Theme::Light)) => "SetTheme(Some(Light))"@,
        Action::SetTheme(Some(Theme::Dark)) => "SetTheme(Some(Dark))"@,
        Action::RequestResize => "RequestResize"@,
    }
}

impl Action {
    /// A short description of the action, as shown in the help listing.
    pub fn help(&self) -> (text: &'static str)
        ensures
            text@ == spec_help(*self),
    {
        match self {
            Action::CloseWindow => "Close window",
            Action::ToggleCursorVisibility => "Hide cursor",
            Action::CreateNewWindow => "Create new window",
            Action::ToggleImeInput => "Toggle IME input",
            Action::ToggleDecorations => "Toggle decorations",
            Action::ToggleResizable => "Toggle window resizable state",
            Action::ToggleFullscreen => "Toggle fullscreen",
            Action::ToggleMaximize => "Maximize",
            Action::Minimize => "Minimize",
            Action::ToggleResizeIncrements => "Use resize increments when resizing window",
            Action::NextCursor => "Advance the cursor to the next value",
            Action::NextCustomCursor => "Advance custom cursor to the next value",
            Action::CycleCursorGrab => "Cycle through cursor grab mode",
            Action::PrintHelp => "Print help",
            Action::DragWindow => "Start window drag",
            Action::DragResizeWindow => "Start window drag-resize",
            Action::ShowWindowMenu => "Show window menu",
            Action::SetTheme(None) => "Change to the system theme",
            Action::SetTheme(Some(Theme::Light)) => "Change to a light theme",
            Action::SetTheme(Some(Theme::Dark)) => "Change to a dark theme",
            Action::RequestResize => "Request a resize",
        }
    }

    /// The text an action is displayed as (the name of its variant).
    pub fn display_name(&self) -> (name: &'static str)
        ensures
            name@ == spec_display_name(*self),
    {
        match self {
            Action::CloseWindow => "CloseWindow",
            Action::ToggleCursorVisibility => "ToggleCursorVisibility",
            Action::CreateNewWindow => "CreateNewWindow",
            Action::ToggleResizeIncrements => "ToggleResizeIncrements",
            Action::ToggleImeInput => "ToggleImeInput",
            Action::ToggleDecorations => "ToggleDecorations",
            Action::ToggleResizable => "ToggleResizable",
            Action::ToggleFullscreen => "ToggleFullscreen",
            Action::ToggleMaximize => "ToggleMaximize",
            Action::Minimize => "Minimize",
            Action::NextCursor => "NextCursor",
            Action::NextCustomCursor => "NextCustomCursor",
            Action::CycleCursorGrab => "CycleCursorGrab",
            Action::PrintHelp => "PrintHelp",
            Action::DragWindow => "DragWindow",
            Action::DragResizeWindow => "DragResizeWindow",
            Action::ShowWindowMenu => "ShowWindowMenu",
            Action::SetTheme(None) => "SetTheme(None)",
            Action::SetTheme(Some(Theme::Light)) => "SetTheme(Some(Light))",
            Action::SetTheme(Some(Theme::Dark)) => "SetTheme(Some(Dark))",
            Action::RequestResize => "RequestResize",
        }
    }
}

} // verus!
