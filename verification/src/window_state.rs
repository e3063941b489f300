use vstd::prelude::*;
use crate::action::Action;
use crate::cursor::{CursorGrabMode, next_grab_mode, next_index, spec_next_grab_mode};
use crate::geometry::{Size, spec_swapped, swap_dimensions};
use crate::theme::{Theme, effective_theme, spec_effective_theme, spec_theme_color, theme_color};

verus! {

/// Side, in physical pixels, of the square IME candidate area placed at the
/// cursor.
pub const IME_AREA_SIZE: u32 = 20;

/// Step, in logical pixels, of the resize increments a window can be given.
pub const RESIZE_INCREMENT: u32 = 25;

/// What a window remembers between events. `P` is the type of a cursor
/// position; the state only stores and hands back positions, it never looks
/// inside one.
#[derive(Clone, Copy, Debug, PartialEq, Eq)]
pub struct WindowState<P> {
    /// Whether IME input is enabled.
    pub ime: bool,
    /// The theme the window is drawn in.
    pub theme: Theme,
    /// Where the cursor is over the window, if it is over it.
    pub cursor_position: Option<P>,
    /// Whether the window is hidden from view (then it is not drawn).
    pub occluded: bool,
    /// The current cursor grab mode.
    pub cursor_grab: CursorGrabMode,
    /// Index of the current named cursor.
    pub named_idx: usize,
    /// Index of the current custom cursor.
    pub custom_idx: usize,
    /// Whether the cursor is hidden.
    pub cursor_hidden: bool,
}

/// What the window reports about itself when an action is handled, and the
/// number of cursors the application cycles through.
#[derive(Clone, Copy, Debug, PartialEq, Eq)]
pub struct ActionContext {
    pub maximized: bool,
    pub decorated: bool,
    pub resizable: bool,
    pub has_resize_increments: bool,
    pub fullscreen: bool,
    pub inner_size: Size,
    /// Number of named cursors.
    pub cursor_count: usize,
    /// Number of custom cursors.
    pub custom_cursor_count: usize,
}

/// What the application must do to the window (or to its set of windows)
/// after an action was handled.
#[derive(Clone, Copy, Debug, PartialEq, Eq)]
pub enum Command<P> {
    CloseWindow,
    CreateWindow,
    /// Resize increments to set, as a square side in logical pixels; `None`
    /// removes them.
    SetResizeIncrements(Option<u32>),
    SetCursorVisible(bool),
    SetResizable(bool),
    SetDecorations(bool),
    /// `true`: borderless fullscreen on the current monitor.
    SetFullscreen(bool),
    SetMaximized(bool),
    /// Enable or disable IME input, and place the IME area at the given
    /// position, if any.
    SetIme { allowed: bool, cursor_area: Option<P> },
    Minimize,
    /// Show the named cursor with this index.
    SetCursorIcon(usize),
    /// Show the custom cursor with this index.
    SetCustomCursor(usize),
    SetCursorGrab(CursorGrabMode),
    DragWindow,
    /// Start a drag-resize from the given cursor position; nothing when the
    /// cursor is not over the window.
    DragResizeWindow(Option<P>),
    /// Show the window menu at the given cursor position; nothing when the
    /// cursor is not over the window.
    ShowWindowMenu(Option<P>),
    PrintHelp,
    /// Ask the system for this theme (`None`: the system's own), then draw
    /// with the theme that results.
    ApplyTheme(Option<Theme>),
    /// Ask for the inner size `requested`, the current one being `current`.
    RequestInnerSize { current: Size, requested: Size },
}

/// The state after IME input is toggled, and the IME area to place.
pub open spec fn spec_toggle_ime<P>(s: WindowState<P>) -> (WindowState<P>, Option<P>) {
    let ime = !s.ime;
    (WindowState { ime, ..s }, if ime { s.cursor_position } else { None })
}

/// The state after the cursor moved to `position` over the window, and the
/// IME area to place.
pub open spec fn spec_cursor_moved<P>(s: WindowState<P>, position: P) -> (WindowState<P>, Option<P>) {
    (
        WindowState { cursor_position: Some(position), ..s },
        if s.ime { Some(position) } else { None },
    )
}

/// The state after cursor visibility is toggled.
pub open spec fn spec_toggle_cursor_visibility<P>(s: WindowState<P>) -> WindowState<P> {
    WindowState { cursor_hidden: !s.cursor_hidden, ..s }
}

/// The outcome of handling `action`: the new state and what to do to the
/// window.
pub open spec fn spec_handle_action<P>(s: WindowState<P>, action: Action, ctx: ActionContext) -> (
    WindowState<P>,
    Command<P>,
) {
    match action {
        Action::CloseWindow => (s, Command::CloseWindow),
        Action::CreateNewWindow => (s, Command::CreateWindow),
        Action::ToggleResizeIncrements => (
            s,
            Command::SetResizeIncrements(
                if ctx.has_resize_increments { None } else { Some(RESIZE_INCREMENT) },
            ),
        ),
        Action::ToggleCursorVisibility => (
            spec_toggle_cursor_visibility(s),
            Command::SetCursorVisible(s.cursor_hidden),
        ),
        Action::ToggleResizable => (s, Command::SetResizable(!ctx.resizable)),
        Action::ToggleDecorations => (s, Command::SetDecorations(!ctx.decorated)),
        Action::ToggleFullscreen => (s, Command::SetFullscreen(!ctx.fullscreen)),
        Action::ToggleMaximize => (s, Command::SetMaximized(!ctx.maximized)),
        Action::ToggleImeInput => (
            spec_toggle_ime(s).0,
            Command::SetIme { allowed: !s.ime, cursor_area: spec_toggle_ime(s).1 },
        ),
        Action::Minimize => (s, Command::Minimize),
        Action::NextCursor => {
            let idx = ((s.named_idx + 1) % (ctx.cursor_count as int)) as usize;
            (WindowState { named_idx: idx, ..s }, Command::SetCursorIcon(idx))
        },
        Action::NextCustomCursor => {
            let idx = ((s.custom_idx + 1) % (ctx.custom_cursor_count as int)) as usize;
            (WindowState { custom_idx: idx, ..s }, Command::SetCustomCursor(idx))
        },
        Action::CycleCursorGrab => {
            let mode = spec_next_grab_mode(s.cursor_grab);
            (WindowState { cursor_grab: mode, ..s }, Command::SetCursorGrab(mode))
        },
        Action::PrintHelp => (s, Command::PrintHelp),
        Action::DragWindow => (s, Command::DragWindow),
        Action::DragResizeWindow => (s, Command::DragResizeWindow(s.cursor_position)),
        Action::ShowWindowMenu => (s, Command::ShowWindowMenu(s.cursor_position)),
        Action::SetTheme(theme) => (s, Command::ApplyTheme(theme)),
        Action::RequestResize => (
            s,
            Command::RequestInnerSize {
                current: ctx.inner_size,
                requested: spec_swapped(ctx.inner_size),
            },
        ),
    }
}

/// What handling `action` needs from its context: cycling through cursors
/// needs at least one cursor to cycle through.
pub open spec fn action_allowed(action: Action, ctx: ActionContext) -> bool {
    &&& action == Action::NextCursor ==> ctx.cursor_count > 0
    &&& action == Action::NextCustomCursor ==> ctx.custom_cursor_count > 0
}

impl<P: Copy> WindowState<P> {
    /// The state of a freshly opened window: IME enabled, drawn in the
    /// system's theme (dark when the system reports none), cursor not over the
    /// window, visible and ungrabbed, first cursors selected.
    pub fn new(system_theme: Option<Theme>) -> (s: Self)
        ensures
            s.ime,
            s.theme == spec_effective_theme(None, system_theme),
            s.cursor_position is None,
            !s.occluded,
            s.cursor_grab == CursorGrabMode::Ungrabbed,
            s.named_idx == 0,
            s.custom_idx == 0,
            !s.cursor_hidden,
    {
        WindowState {
            ime: true,
            theme: effective_theme(None, system_theme),
            cursor_position: None,
            occluded: false,
            cursor_grab: CursorGrabMode::Ungrabbed,
            named_idx: 0,
            custom_idx: 0,
            cursor_hidden: false,
        }
    }

    /// Toggles IME input. Returns where to place the IME area: the cursor
    /// position, when IME input was just enabled and the cursor is over the
    /// window.
    pub fn toggle_ime(&mut self) -> (area: Option<P>)
        ensures
            (*final(self), area) == spec_toggle_ime(*old(self)),
    {
        self.ime = !self.ime;
        if self.ime {
            self.cursor_position
        } else {
            None
        }
    }

    /// Records that the cursor moved to `position`. Returns where to place
    /// the IME area: at the cursor, when IME input is enabled.
    pub fn cursor_moved(&mut self, position: P) -> (area: Option<P>)
        ensures
            (*final(self), area) == spec_cursor_moved(*old(self), position),
    {
        self.cursor_position = Some(position);
        if self.ime {
            Some(position)
        } else {
            None
        }
    }

    /// Records that the cursor left the window.
    pub fn cursor_left(&mut self)
        ensures
            *final(self) == (WindowState { cursor_position: None, ..*old(self) }),
    {
        self.cursor_position = None;
    }

    /// Toggles whether the cursor is hidden. Returns whether the cursor is now
    /// visible.
    pub fn toggle_cursor_visibility(&mut self) -> (visible: bool)
        ensures
            *final(self) == spec_toggle_cursor_visibility(*old(self)),
            visible == !final(self).cursor_hidden,
    {
        self.cursor_hidden = !self.cursor_hidden;
        !self.cursor_hidden
    }

    /// Moves to the next cursor grab mode and returns it.
    pub fn cycle_cursor_grab(&mut self) -> (mode: CursorGrabMode)
        ensures
            *final(self) == (WindowState { cursor_grab: spec_next_grab_mode(old(self).cursor_grab), ..*old(self) }),
            mode == final(self).cursor_grab,
    {
        self.cursor_grab = next_grab_mode(self.cursor_grab);
        self.cursor_grab
    }

    /// Selects the next of `count` named cursors and returns its index.
    pub fn next_cursor(&mut self, count: usize) -> (index: usize)
        requires
            count > 0,
        ensures
            index == (old(self).named_idx + 1) % (count as int),
            index < count,
            *final(self) == (WindowState { named_idx: index, ..*old(self) }),
    {
        self.named_idx = next_index(self.named_idx, count);
        self.named_idx
    }

    /// Selects the next of `count` custom cursors and returns its index.
    pub fn next_custom_cursor(&mut self, count: usize) -> (index: usize)
        requires
            count > 0,
        ensures
            index == (old(self).custom_idx + 1) % (count as int),
            index < count,
            *final(self) == (WindowState { custom_idx: index, ..*old(self) }),
    {
        self.custom_idx = next_index(self.custom_idx, count);
        self.custom_idx
    }

    /// Changes the theme the window is drawn in (the window is then redrawn).
    pub fn set_draw_theme(&mut self, theme: Theme)
        ensures
            *final(self) == (WindowState { theme, ..*old(self) }),
    {
        self.theme = theme;
    }

    /// Records whether the window is hidden from view.
    pub fn set_occluded(&mut self, occluded: bool)
        ensures
            *final(self) == (WindowState { occluded, ..*old(self) }),
    {
        self.occluded = occluded;
    }

    /// The colour to fill the window with when it is redrawn; `None` when it
    /// is occluded and drawing is skipped.
    pub fn draw(&self) -> (color: Option<u32>)
        ensures
            color == (if self.occluded { None } else { Some(spec_theme_color(self.theme)) }),
    {
        if self.occluded {
            None
        } else {
            Some(theme_color(self.theme))
        }
    }

    /// Handles a user action: updates the state and says what to do to the
    /// window.
    pub fn handle_action(&mut self, action: Action, ctx: ActionContext) -> (command: Command<P>)
        requires
            action_allowed(action, ctx),
        ensures
            (*final(self), command) == spec_handle_action(*old(self), action, ctx),
    {
        match action {
            Action::CloseWindow => Command::CloseWindow,
            Action::CreateNewWindow => Command::CreateWindow,
            Action::ToggleResizeIncrements => Command::SetResizeIncrements(
                if ctx.has_resize_increments {
                    None
                } else {
                    Some(RESIZE_INCREMENT)
                },
            ),
            Action::ToggleCursorVisibility => Command::SetCursorVisible(
                self.toggle_cursor_visibility(),
            ),
            Action::ToggleResizable => Command::SetResizable(!ctx.resizable),
            Action::ToggleDecorations => Command::SetDecorations(!ctx.decorated),
            Action::ToggleFullscreen => Command::SetFullscreen(!ctx.fullscreen),
            Action::ToggleMaximize => Command::SetMaximized(!ctx.maximized),
            Action::ToggleImeInput => {
                let cursor_area = self.toggle_ime();
                Command::SetIme { allowed: self.ime, cursor_area }
            },
            Action::Minimize => Command::Minimize,
            Action::NextCursor => Command::SetCursorIcon(self.next_cursor(ctx.cursor_count)),
            Action::NextCustomCursor => Command::SetCustomCursor(
                self.next_custom_cursor(ctx.custom_cursor_count),
            ),
            Action::CycleCursorGrab => Command::SetCursorGrab(self.cycle_cursor_grab()),
            Action::PrintHelp => Command::PrintHelp,
            Action::DragWindow => Command::DragWindow,
            Action::DragResizeWindow => Command::DragResizeWindow(self.cursor_position),
            Action::ShowWindowMenu => Command::ShowWindowMenu(self.cursor_position),
            Action::SetTheme(theme) => Command::ApplyTheme(theme),
            Action::RequestResize => Command::RequestInnerSize {
                current: ctx.inner_size,
                requested: swap_dimensions(ctx.inner_size),
            },
        }
    }
}

/// Whether handling `action` can change the window's own state; every other
/// action only asks something of the window system.
pub open spec fn changes_state(action: Action) -> bool {
    ||| action == Action::ToggleImeInput
    ||| action == Action::ToggleCursorVisibility
    ||| action == Action::NextCursor
    ||| action == Action::NextCustomCursor
    ||| action == Action::CycleCursorGrab
}

/// Handling an action never moves the cursor, changes the theme or the
/// occlusion; actions other than the five state-changing ones leave the state
/// as it was; and the selected cursors stay inside their lists.
pub proof fn lemma_handle_action_frame<P>(s: WindowState<P>, action: Action, ctx: ActionContext)
    requires
        action_allowed(action, ctx),
        ctx.cursor_count > 0 ==> s.named_idx < ctx.cursor_count,
        ctx.custom_cursor_count > 0 ==> s.custom_idx < ctx.custom_cursor_count,
    ensures
        ({
            let t = spec_handle_action(s, action, ctx).0;
            &&& t.cursor_position == s.cursor_position
            &&& t.theme == s.theme
            &&& t.occluded == s.occluded
            &&& !changes_state(action) ==> t == s
            &&& ctx.cursor_count > 0 ==> t.named_idx < ctx.cursor_count
            &&& ctx.custom_cursor_count > 0 ==> t.custom_idx < ctx.custom_cursor_count
        }),
{
    if action == Action::NextCursor {
        vstd::arithmetic::div_mod::lemma_mod_bound(s.named_idx + 1, ctx.cursor_count as int);
    }
    if action == Action::NextCustomCursor {
        vstd::arithmetic::div_mod::lemma_mod_bound(s.custom_idx + 1, ctx.custom_cursor_count as int);
    }
}

/// Toggling IME input twice leaves the window state as it was.
pub proof fn lemma_toggle_ime_twice<P>(s: WindowState<P>)
    ensures
        spec_toggle_ime(spec_toggle_ime(s).0).0 == s,
{
}

/// Toggling cursor visibility twice leaves the window state as it was.
pub proof fn lemma_toggle_cursor_visibility_twice<P>(s: WindowState<P>)
    ensures
        spec_toggle_cursor_visibility(spec_toggle_cursor_visibility(s)) == s,
{
}

/// What each action does, whatever the rest of the state and context:
/// window-side toggles ask for the opposite of what the window reports (and
/// nothing else), the state-changing actions change exactly their own field,
/// and the remaining actions leave the state alone and pass on what they
/// need (cursor position, theme, swapped size).
pub proof fn lemma_handle_action_effects<P>(s: WindowState<P>, action: Action, ctx: ActionContext)
    requires
        action_allowed(action, ctx),
    ensures
        ({
            let (t, c) = spec_handle_action(s, action, ctx);
            &&& action == Action::CloseWindow ==> t == s && c == Command::<P>::CloseWindow
            &&& action == Action::CreateNewWindow ==> t == s && c == Command::<P>::CreateWindow
            &&& action == Action::ToggleResizeIncrements ==> {
                &&& t == s
                &&& ctx.has_resize_increments ==> c == Command::<P>::SetResizeIncrements(None)
                &&& !ctx.has_resize_increments ==> c == Command::<P>::SetResizeIncrements(Some(25u32))
            }
            &&& action == Action::ToggleCursorVisibility ==> {
                &&& t == WindowState { cursor_hidden: !s.cursor_hidden, ..s }
                &&& c == Command::<P>::SetCursorVisible(!t.cursor_hidden)
            }
            &&& action == Action::ToggleResizable ==> t == s && c == Command::<P>::SetResizable(!ctx.resizable)
            &&& action == Action::ToggleDecorations ==> t == s && c == Command::<P>::SetDecorations(!ctx.decorated)
            &&& action == Action::ToggleFullscreen ==> t == s && c == Command::<P>::SetFullscreen(!ctx.fullscreen)
            &&& action == Action::ToggleMaximize ==> t == s && c == Command::<P>::SetMaximized(!ctx.maximized)
            &&& action == Action::ToggleImeInput ==> {
                &&& t == WindowState { ime: !s.ime, ..s }
                &&& t.ime ==> c == Command::SetIme { allowed: true, cursor_area: s.cursor_position }
                &&& !t.ime ==> c == Command::<P>::SetIme { allowed: false, cursor_area: None }
            }
            &&& action == Action::Minimize ==> t == s && c == Command::<P>::Minimize
            &&& action == Action::NextCursor ==> {
                &&& t == WindowState { named_idx: t.named_idx, ..s }
                &&& t.named_idx == (s.named_idx + 1) % (ctx.cursor_count as int)
                &&& t.named_idx < ctx.cursor_count
                &&& c == Command::<P>::SetCursorIcon(t.named_idx)
            }
            &&& action == Action::NextCustomCursor ==> {
                &&& t == WindowState { custom_idx: t.custom_idx, ..s }
                &&& t.custom_idx == (s.custom_idx + 1) % (ctx.custom_cursor_count as int)
                &&& t.custom_idx < ctx.custom_cursor_count
                &&& c == Command::<P>::SetCustomCursor(t.custom_idx)
            }
            &&& action == Action::CycleCursorGrab ==> {
                &&& t == WindowState { cursor_grab: t.cursor_grab, ..s }
                &&& s.cursor_grab == CursorGrabMode::Ungrabbed ==> t.cursor_grab == CursorGrabMode::Confined
                &&& s.cursor_grab == CursorGrabMode::Confined ==> t.cursor_grab == CursorGrabMode::Locked
                &&& s.cursor_grab == CursorGrabMode::Locked ==> t.cursor_grab == CursorGrabMode::Ungrabbed
                &&& c == Command::<P>::SetCursorGrab(t.cursor_grab)
            }
            &&& action == Action::PrintHelp ==> t == s && c == Command::<P>::PrintHelp
            &&& action == Action::DragWindow ==> t == s && c == Command::<P>::DragWindow
            &&& action == Action::DragResizeWindow ==> t == s && c == Command::DragResizeWindow(s.cursor_position)
            &&& action == Action::ShowWindowMenu ==> t == s && c == Command::ShowWindowMenu(s.cursor_position)
            &&& action matches Action::SetTheme(theme) ==> t == s && c == Command::<P>::ApplyTheme(theme)
            &&& action == Action::RequestResize ==> {
                &&& t == s
                &&& c == Command::<P>::RequestInnerSize {
                    current: ctx.inner_size,
                    requested: Size { width: ctx.inner_size.height, height: ctx.inner_size.width },
                }
            }
        }),
{
    if action == Action::NextCursor {
        vstd::arithmetic::div_mod::lemma_mod_bound(s.named_idx + 1, ctx.cursor_count as int);
    }
    if action == Action::NextCustomCursor {
        vstd::arithmetic::div_mod::lemma_mod_bound(s.custom_idx + 1, ctx.custom_cursor_count as int);
    }
}

/// Toggling IME input flips the IME flag and nothing else, and places the IME
/// area at the cursor exactly when IME input becomes enabled with the cursor
/// over the window.
pub proof fn lemma_toggle_ime_effect<P>(s: WindowState<P>)
    ensures
        spec_toggle_ime(s).0 == (WindowState { ime: !s.ime, ..s }),
        s.ime ==> spec_toggle_ime(s).1 is None,
        !s.ime ==> spec_toggle_ime(s).1 == s.cursor_position,
{
}

/// A cursor move records the new position and nothing else, and places the
/// IME area there exactly when IME input is enabled.
pub proof fn lemma_cursor_moved_effect<P>(s: WindowState<P>, position: P)
    ensures
        spec_cursor_moved(s, position).0 == (WindowState { cursor_position: Some(position), ..s }),
        s.ime ==> spec_cursor_moved(s, position).1 == Some(position),
        !s.ime ==> spec_cursor_moved(s, position).1 is None,
{
}

/// Toggling cursor visibility flips the hidden flag and nothing else.
pub proof fn lemma_toggle_cursor_visibility_effect<P>(s: WindowState<P>)
    ensures
        spec_toggle_cursor_visibility(s) == (WindowState { cursor_hidden: !s.cursor_hidden, ..s }),
{
}

} // verus!
