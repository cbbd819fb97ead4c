//! The keys the widgets react to.
use vstd::prelude::*;

verus! {

/// A key press, as the widgets see it.
#[derive(Debug, Clone, Copy, PartialEq, Eq, Structural)]
pub enum Key {
    Char(char),
    Backspace,
    Delete,
    Left,
    Right,
    Up,
    Down,
    Home,
    End,
    PageUp,
    PageDown,
    Tab,
    BackTab,
    Enter,
    Esc,
    /// Any key the widgets do not use.
    Other,
}

} // verus!
