//! The key events the two components react to, as plain values.

use vstd::prelude::*;

verus! {

/// One keypress, already decoded by the surrounding terminal layer.
#[derive(Clone, Copy, Debug, PartialEq, Eq)]
pub enum Key {
    /// A printable character, or `'\n'` for Enter.
    Char(char),
    Backspace,
    Left,
    Right,
    /// A character pressed together with Ctrl.
    Ctrl(char),
    /// Any key neither component reacts to.
    Other,
}

} // verus!
