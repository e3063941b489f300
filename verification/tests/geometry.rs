use window_context::cursor::{next_grab_mode, next_index, CursorGrabMode};
use window_context::frame::fill_frame;
use window_context::geometry::{
    resize_after_request, resize_direction, surface_extent, swap_dimensions, EdgeZone,
    ResizeDirection, Size,
};
use window_context::theme::{effective_theme, theme_color, Theme, DARK_GRAY, WHITE};

fn size(width: u32, height: u32) -> Size {
    Size { width, height }
}

#[test]
fn swap_dimensions_exchanges_sides() {
    assert_eq!(swap_dimensions(size(800, 600)), size(600, 800));
    assert_eq!(swap_dimensions(size(7, 7)), size(7, 7));
}

#[test]
fn swap_dimensions_twice_is_identity() {
    let s = size(1920, 1080);
    assert_eq!(swap_dimensions(swap_dimensions(s)), s);
}

#[test]
fn resize_after_request_only_on_change() {
    let old = size(800, 600);
    assert_eq!(resize_after_request(old, None), None);
    assert_eq!(resize_after_request(old, Some(old)), None);
    assert_eq!(resize_after_request(old, Some(size(600, 800))), Some(size(600, 800)));
}

#[test]
fn surface_extent_needs_both_sides() {
    assert_eq!(surface_extent(size(800, 600)), Some(size(800, 600)));
    assert_eq!(surface_extent(size(0, 600)), None);
    assert_eq!(surface_extent(size(800, 0)), None);
    assert_eq!(surface_extent(size(0, 0)), None);
    assert_eq!(surface_extent(size(1, 1)), Some(size(1, 1)));
}

#[test]
fn resize_direction_table() {
    assert_eq!(resize_direction(EdgeZone::Start, EdgeZone::Start), Some(ResizeDirection::NorthWest));
    assert_eq!(resize_direction(EdgeZone::Start, EdgeZone::Middle), Some(ResizeDirection::West));
    assert_eq!(resize_direction(EdgeZone::Start, EdgeZone::End), Some(ResizeDirection::SouthWest));
    assert_eq!(resize_direction(EdgeZone::Middle, EdgeZone::Start), Some(ResizeDirection::North));
    assert_eq!(resize_direction(EdgeZone::Middle, EdgeZone::Middle), None);
    assert_eq!(resize_direction(EdgeZone::Middle, EdgeZone::End), Some(ResizeDirection::South));
    assert_eq!(resize_direction(EdgeZone::End, EdgeZone::Start), Some(ResizeDirection::NorthEast));
    assert_eq!(resize_direction(EdgeZone::End, EdgeZone::Middle), Some(ResizeDirection::East));
    assert_eq!(resize_direction(EdgeZone::End, EdgeZone::End), Some(ResizeDirection::SouthEast));
}

#[test]
fn grab_mode_cycles_with_period_three() {
    let start = CursorGrabMode::Ungrabbed;
    let a = next_grab_mode(start);
    let b = next_grab_mode(a);
    let c = next_grab_mode(b);
    assert_eq!(a, CursorGrabMode::Confined);
    assert_eq!(b, CursorGrabMode::Locked);
    assert_eq!(c, start);
}

#[test]
fn next_index_wraps_around() {
    assert_eq!(next_index(0, 3), 1);
    assert_eq!(next_index(1, 3), 2);
    assert_eq!(next_index(2, 3), 0);
    assert_eq!(next_index(0, 1), 0);
    assert_eq!(next_index(7, 3), 2);
    assert_eq!(next_index(usize::MAX, 10), ((usize::MAX as u128 + 1) % 10) as usize);
}

#[test]
fn cursor_cycle_returns_after_count_steps() {
    let count = 34;
    let mut index = 5;
    let mut seen = vec![false; count];
    for _ in 0..count {
        index = next_index(index, count);
        assert!(index < count);
        seen[index] = true;
    }
    assert_eq!(index, 5);
    assert!(seen.iter().all(|s| *s));
}

#[test]
fn theme_colors() {
    assert_eq!(theme_color(Theme::Light), 0xffffffff);
    assert_eq!(theme_color(Theme::Dark), 0xff181818);
    assert_eq!(WHITE, 0xffffffff);
    assert_eq!(DARK_GRAY, 0xff181818);
}

#[test]
fn effective_theme_prefers_request_then_system_then_dark() {
    assert_eq!(effective_theme(Some(Theme::Light), Some(Theme::Dark)), Theme::Light);
    assert_eq!(effective_theme(None, Some(Theme::Light)), Theme::Light);
    assert_eq!(effective_theme(None, None), Theme::Dark);
    assert_eq!(effective_theme(Some(Theme::Dark), None), Theme::Dark);
}

#[test]
fn fill_frame_paints_every_pixel() {
    let mut frame = vec![0u32; 37];
    fill_frame(&mut frame, 0xff181818);
    assert_eq!(frame.len(), 37);
    assert!(frame.iter().all(|p| *p == 0xff181818));
    let mut empty: Vec<u32> = Vec::new();
    fill_frame(&mut empty, 1);
    assert!(empty.is_empty());
}
