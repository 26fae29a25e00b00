//! Screen-rendering and cursor-coordinate core of a small terminal editor.
//!
//! The crate models the three pieces that carry the editor's invariants:
//! an append-only output buffer that coalesces one frame of drawing into a
//! single string ([`contents`]), a cursor controller that clamps every
//! movement request to the viewport ([`cursor`]), and a renderer that draws
//! the tilde-filled placeholder screen with its centered welcome banner
//! ([`render`]). Key dispatch from decoded key events to cursor movement or
//! a quit signal lives in [`editor`]. Everything that touches the real
//! terminal (raw mode, polling for events, flushing the buffer) stays with
//! the binary around this library; the ANSI command text itself comes from
//! crossterm through the trusted helpers in [`term`].

pub mod contents;
pub mod cursor;
pub mod editor;
pub mod render;
pub mod term;
