//! Showroom: the decision logic of a terminal-emulator front end.
//!
//! The window, the pty and the clipboard are driven by the application; this
//! library holds what the front end decides: how terminal colors become screen
//! colors, how a screen of cells is laid out as text, how keys and modifiers are
//! encoded for the shell, what to do with each event the terminal emits, and when
//! the terminal must be resized.
pub mod color;
pub mod geometry;
pub mod keys;
pub mod screen;
pub mod terminal;

use vstd::prelude::*;

verus! {

} // verus!
