//! Operations on the live keymap, using VIA/Vial's 16-bit keycode encoding.
use vstd::prelude::*;

verus! {

/// One keymap operation. Exactly one may be in flight: the single client
/// sends it and awaits the canonical keycode stored after it.
#[derive(Debug, Clone, Copy, PartialEq, Eq, Structural)]
pub enum KeymapOp {
    /// Read the action at `(layer, row, col)` as a VIA keycode.
    Get { layer: u8, row: u8, col: u8 },
    /// Decode and persist a VIA keycode at `(layer, row, col)`.
    Put { layer: u8, row: u8, col: u8, keycode: u16 },
}

} // verus!
