//! The settings of one orbit camera that decide whether it reacts at all,
//! and to which buttons.

use vstd::prelude::*;
use crate::button::PointerButton;

verus! {

/// Which button turns the camera, which one slides it, and whether the
/// camera listens to the pointer at all.
///
/// The two buttons are meant to differ. Nothing enforces it: where they are
/// the same button, that button turns and slides the camera at once.
#[derive(Clone, Copy, Debug, PartialEq, Eq, Structural)]
pub struct Controls {
    /// Held while dragging to turn the camera around its pivot.
    pub rotate_button: PointerButton,
    /// Held while dragging to slide the camera and its pivot together.
    pub pan_button: PointerButton,
    /// A camera that is not enabled is skipped by every update.
    pub enabled: bool,
}

impl Controls {
    /// The settings a camera starts with: the left button turns, the right
    /// button slides, and the camera is enabled.
    pub open spec fn initial() -> Controls {
        Controls {
            rotate_button: PointerButton::Left,
            pan_button: PointerButton::Right,
            enabled: true,
        }
    }
}

impl Default for Controls {
    fn default() -> (c: Controls)
        ensures
            c == Controls::initial(),
    {
        Controls {
            rotate_button: PointerButton::Left,
            pan_button: PointerButton::Right,
            enabled: true,
        }
    }
}

} // verus!
