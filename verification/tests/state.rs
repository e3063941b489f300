use window_context::action::Action;
use window_context::cursor::CursorGrabMode;
use window_context::geometry::Size;
use window_context::theme::Theme;
use window_context::window_state::{
    ActionContext, Command, WindowState, IME_AREA_SIZE, RESIZE_INCREMENT,
};

type Pos = (i32, i32);

fn ctx() -> ActionContext {
    ActionContext {
        maximized: false,
        decorated: true,
        resizable: true,
        has_resize_increments: false,
        fullscreen: false,
        inner_size: Size { width: 800, height: 600 },
        cursor_count: 34,
        custom_cursor_count: 3,
    }
}

#[test]
fn new_window_state_defaults() {
    let s: WindowState<Pos> = WindowState::new(None);
    assert!(s.ime);
    assert_eq!(s.theme, Theme::Dark);
    assert_eq!(s.cursor_position, None);
    assert!(!s.occluded);
    assert_eq!(s.cursor_grab, CursorGrabMode::Ungrabbed);
    assert_eq!(s.named_idx, 0);
    assert_eq!(s.custom_idx, 0);
    assert!(!s.cursor_hidden);
    let light: WindowState<Pos> = WindowState::new(Some(Theme::Light));
    assert_eq!(light.theme, Theme::Light);
}

#[test]
fn toggle_ime_places_area_only_when_enabling_over_window() {
    let mut s: WindowState<Pos> = WindowState::new(None);
    assert_eq!(s.toggle_ime(), None);
    assert!(!s.ime);
    assert_eq!(s.toggle_ime(), None);
    assert!(s.ime);
    s.cursor_moved((3, 4));
    assert_eq!(s.toggle_ime(), None);
    assert_eq!(s.toggle_ime(), Some((3, 4)));
}

#[test]
fn toggle_ime_twice_restores_state() {
    let mut s: WindowState<Pos> = WindowState::new(Some(Theme::Light));
    s.cursor_moved((10, 20));
    let before = s;
    s.toggle_ime();
    s.toggle_ime();
    assert_eq!(s, before);
}

#[test]
fn cursor_moved_and_left() {
    let mut s: WindowState<Pos> = WindowState::new(None);
    assert_eq!(s.cursor_moved((1, 2)), Some((1, 2)));
    assert_eq!(s.cursor_position, Some((1, 2)));
    s.toggle_ime();
    assert_eq!(s.cursor_moved((5, 6)), None);
    assert_eq!(s.cursor_position, Some((5, 6)));
    s.cursor_left();
    assert_eq!(s.cursor_position, None);
}

#[test]
fn toggle_cursor_visibility_twice_restores_state() {
    let mut s: WindowState<Pos> = WindowState::new(None);
    assert!(!s.toggle_cursor_visibility());
    assert!(s.cursor_hidden);
    assert!(s.toggle_cursor_visibility());
    assert_eq!(s, WindowState::new(None));
}

#[test]
fn draw_color_follows_theme_and_occlusion() {
    let mut s: WindowState<Pos> = WindowState::new(None);
    assert_eq!(s.draw(), Some(0xff181818));
    s.set_draw_theme(Theme::Light);
    assert_eq!(s.draw(), Some(0xffffffff));
    s.set_occluded(true);
    assert_eq!(s.draw(), None);
    s.set_occluded(false);
    assert_eq!(s.draw(), Some(0xffffffff));
}

#[test]
fn cycle_cursor_grab_and_cursors() {
    let mut s: WindowState<Pos> = WindowState::new(None);
    assert_eq!(s.cycle_cursor_grab(), CursorGrabMode::Confined);
    assert_eq!(s.cycle_cursor_grab(), CursorGrabMode::Locked);
    assert_eq!(s.cycle_cursor_grab(), CursorGrabMode::Ungrabbed);
    assert_eq!(s.next_custom_cursor(3), 1);
    assert_eq!(s.next_custom_cursor(3), 2);
    assert_eq!(s.next_custom_cursor(3), 0);
    assert_eq!(s.next_cursor(2), 1);
    assert_eq!(s.next_cursor(2), 0);
}

#[test]
fn handle_action_window_toggles() {
    let mut s: WindowState<Pos> = WindowState::new(None);
    let before = s;
    let c = ctx();
    assert_eq!(s.handle_action(Action::ToggleMaximize, c), Command::SetMaximized(true));
    assert_eq!(s.handle_action(Action::ToggleDecorations, c), Command::SetDecorations(false));
    assert_eq!(s.handle_action(Action::ToggleResizable, c), Command::SetResizable(false));
    assert_eq!(s.handle_action(Action::ToggleFullscreen, c), Command::SetFullscreen(true));
    assert_eq!(
        s.handle_action(Action::ToggleResizeIncrements, c),
        Command::SetResizeIncrements(Some(RESIZE_INCREMENT))
    );
    let with_increments = ActionContext { has_resize_increments: true, fullscreen: true, ..c };
    assert_eq!(
        s.handle_action(Action::ToggleResizeIncrements, with_increments),
        Command::SetResizeIncrements(None)
    );
    assert_eq!(s.handle_action(Action::ToggleFullscreen, with_increments), Command::SetFullscreen(false));
    assert_eq!(s.handle_action(Action::Minimize, c), Command::Minimize);
    assert_eq!(s.handle_action(Action::CloseWindow, c), Command::CloseWindow);
    assert_eq!(s.handle_action(Action::CreateNewWindow, c), Command::CreateWindow);
    assert_eq!(s.handle_action(Action::PrintHelp, c), Command::PrintHelp);
    assert_eq!(s.handle_action(Action::DragWindow, c), Command::DragWindow);
    assert_eq!(s, before);
}

#[test]
fn handle_action_stateful_actions() {
    let mut s: WindowState<Pos> = WindowState::new(None);
    let c = ctx();
    assert_eq!(
        s.handle_action(Action::ToggleImeInput, c),
        Command::SetIme { allowed: false, cursor_area: None }
    );
    s.cursor_moved((7, 8));
    assert_eq!(
        s.handle_action(Action::ToggleImeInput, c),
        Command::SetIme { allowed: true, cursor_area: Some((7, 8)) }
    );
    assert_eq!(s.handle_action(Action::ToggleCursorVisibility, c), Command::SetCursorVisible(false));
    assert!(s.cursor_hidden);
    assert_eq!(s.handle_action(Action::NextCursor, c), Command::SetCursorIcon(1));
    assert_eq!(s.named_idx, 1);
    assert_eq!(s.handle_action(Action::NextCustomCursor, c), Command::SetCustomCursor(1));
    assert_eq!(s.custom_idx, 1);
    assert_eq!(
        s.handle_action(Action::CycleCursorGrab, c),
        Command::SetCursorGrab(CursorGrabMode::Confined)
    );
    assert_eq!(s.cursor_grab, CursorGrabMode::Confined);
    assert_eq!(s.handle_action(Action::DragResizeWindow, c), Command::DragResizeWindow(Some((7, 8))));
    assert_eq!(s.handle_action(Action::ShowWindowMenu, c), Command::ShowWindowMenu(Some((7, 8))));
    s.cursor_left();
    assert_eq!(s.handle_action(Action::ShowWindowMenu, c), Command::ShowWindowMenu(None));
    assert_eq!(
        s.handle_action(Action::SetTheme(Some(Theme::Light)), c),
        Command::ApplyTheme(Some(Theme::Light))
    );
    assert_eq!(
        s.handle_action(Action::RequestResize, c),
        Command::RequestInnerSize {
            current: Size { width: 800, height: 600 },
            requested: Size { width: 600, height: 800 },
        }
    );
}

#[test]
fn ime_area_side() {
    assert_eq!(IME_AREA_SIZE, 20);
    assert_eq!(RESIZE_INCREMENT, 25);
}
