//! The discrete key events the input adapter delivers to the core.

use vstd::prelude::*;

verus! {

/// A key press, already classified by the input adapter.
#[derive(Clone, Copy, Debug, PartialEq, Eq, Structural)]
pub enum InputKey {
    Up,
    Down,
    Left,
    Right,
    Enter,
    Esc,
    Unhandled,
    Char(char),
}

} // verus!
