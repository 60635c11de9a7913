//! Input events shared by the keyboard processors.
use vstd::prelude::*;

verus! {

/// A key position on the matrix.
#[derive(Clone, Copy, Debug, Eq, PartialEq, Structural)]
pub struct KeyPos {
    pub row: u8,
    pub col: u8,
}

/// Where an input event came from.
#[derive(Clone, Copy, Debug, Eq, PartialEq, Structural)]
pub enum KeyboardEventPos {
    /// A matrix key.
    Key(KeyPos),
    /// A rotary encoder, by its id.
    RotaryEncoder(u8),
}

/// A key or encoder input event: its source and edge.
#[derive(Clone, Copy, Debug, Eq, PartialEq, Structural)]
pub struct KeyboardEvent {
    pub pos: KeyboardEventPos,
    pub pressed: bool,
}

impl KeyboardEvent {
    /// The event of the matrix key at `(row, col)`.
    pub fn key(row: u8, col: u8, pressed: bool) -> (r: Self)
        ensures
            r == (KeyboardEvent { pos: KeyboardEventPos::Key(KeyPos { row, col }), pressed }),
    {
        KeyboardEvent { pos: KeyboardEventPos::Key(KeyPos { row, col }), pressed }
    }
}

} // verus!
