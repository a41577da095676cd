//! The host's record of the buttons that are held, as far as a camera reads
//! it.
//!
//! The record is bevy's `Input`. Nothing in this crate looks inside it: what it
//! holds has a name, and the one question asked of it has a contract that is
//! taken on trust.

use vstd::prelude::*;
use bevy::input::Input;
use crate::button::PointerButton;

verus! {

/// bevy's `Input<T>`: the set of inputs of type `T` that are pressed.
#[verifier::external_type_specification]
#[verifier::external_body]
#[verifier::reject_recursive_types(T)]
pub struct ExInput<T>(Input<T>);

/// bevy's own enumeration of pointer buttons.
#[verifier::external_type_specification]
#[verifier::external_body]
pub struct ExHostButton(bevy::input::mouse::MouseButton);

/// The buttons that a record holds as pressed.
pub uninterp spec fn held_buttons(input: Input<bevy::input::mouse::MouseButton>) -> Set<PointerButton>;

/// Asks the record whether a button is pressed.
///
/// Calls bevy's `Input::pressed` with the host's button of the same tag (and,
/// for `Other`, the same number). Trusted: the answer is membership in the
/// record's set of pressed buttons, which is what `Input::pressed` looks up.
#[verifier::external_body]
pub(crate) fn button_held(
    input: &Input<bevy::input::mouse::MouseButton>,
    button: PointerButton,
) -> (held: bool)
    ensures
        held == held_buttons(*input).contains(button),
{
    input.pressed(match button {
        PointerButton::Left => bevy::input::mouse::MouseButton::Left,
        PointerButton::Right => bevy::input::mouse::MouseButton::Right,
        PointerButton::Middle => bevy::input::mouse::MouseButton::Middle,
        PointerButton::Other(n) => bevy::input::mouse::MouseButton::Other(n),
    })
}

} // verus!
