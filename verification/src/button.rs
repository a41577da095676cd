//! Pointer buttons as a closed set of tags that are compared by value.

use vstd::prelude::*;

verus! {

/// A button of a pointing device.
#[derive(Clone, Copy, Debug, PartialEq, Eq, Structural, Hash)]
pub enum PointerButton {
    Left,
    Right,
    Middle,
    /// Any further button, by the number that the device gives it.
    Other(u16),
}

} // verus!
