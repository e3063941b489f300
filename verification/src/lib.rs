//! Window-state logic of a small winit application: themes and colours,
//! the keyboard/mouse actions a window understands, cursor cycling, resize
//! geometry, frame filling and custom cursor images.
//!
//! The windowing system itself (creating windows, surfaces and event loops)
//! lives in the binary around this crate. The window state and its decisions
//! are pure and proved with Verus; `cursor_image` also decodes image files
//! (the `image` crate) and builds winit cursor sources, through trusted
//! wrappers whose contracts state what those crates guarantee.

pub mod action;
pub mod cursor;
pub mod cursor_image;
pub mod decoding;
pub mod frame;
pub mod geometry;
pub mod theme;
pub mod window_state;
