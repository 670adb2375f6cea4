//! Input subsystem: the events that drive the user interface.

pub mod keyboard;

use vstd::prelude::*;

verus! {

/// A generic input event.
#[derive(Debug, Clone, Copy, PartialEq, Eq, Structural)]
pub enum InputEvent {
    Char(char),
    Backspace,
    Enter,
    Tab,
    Escape,
    Up,
    Down,
    Left,
    Right,
}

} // verus!
