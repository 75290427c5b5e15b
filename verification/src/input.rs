//! The mouse, as the host engine reports it.

use bevy::input::mouse::MouseButton;
use bevy::input::ButtonInput;
use std::hash::Hash;
use vstd::prelude::*;

verus! {

/// The host engine's name for a button of the mouse. Nothing is known of a
/// value of it here; [`PointerButton`] stands for it in contracts.
#[verifier::external_type_specification]
#[verifier::external_body]
pub struct ExMouseButton(MouseButton);

/// The host engine's record of which buttons are down, which went down and
/// which were let go. Nothing is known of what a value of it holds but what
/// [`released_buttons`] names.
#[verifier::external_type_specification]
#[verifier::external_body]
#[verifier::reject_recursive_types(T)]
pub struct ExButtonInput<T: Copy + Eq + Hash + Send + Sync + 'static>(ButtonInput<T>);

/// A button of the mouse.
#[derive(Clone, Copy, PartialEq, Eq, Hash, Debug, Structural)]
pub enum PointerButton {
    Left,
    Right,
    Middle,
    Back,
    Forward,
    /// Any further button, by its number.
    Other(u16),
}

/// The buttons that `input` holds as just released: those let go since the
/// host engine last cleared the record, each under the name that
/// [`PointerButton`] has for it.
pub uninterp spec fn released_buttons(input: ButtonInput<MouseButton>) -> Set<PointerButton>;

/// Calls `ButtonInput::just_released` of the host engine, which looks
/// `button` up among the buttons that `input` holds as just released.
/// Trusted: the answer is taken to be membership in [`released_buttons`].
#[verifier::external_body]
pub(crate) fn just_released(
    input: &ButtonInput<MouseButton>,
    button: PointerButton,
) -> (released: bool)
    ensures
        released == released_buttons(*input).contains(button),
{
    input.just_released(
        match button {
            PointerButton::Left => MouseButton::Left,
            PointerButton::Right => MouseButton::Right,
            PointerButton::Middle => MouseButton::Middle,
            PointerButton::Back => MouseButton::Back,
            PointerButton::Forward => MouseButton::Forward,
            PointerButton::Other(number) => MouseButton::Other(number),
        },
    )
}

} // verus!
