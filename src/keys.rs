//! The four keys that steer the paddles, and the keyboard state they are read from.

use bevy::input::keyboard::KeyCode;
use bevy::input::Input;
use vstd::prelude::*;

verus! {

/// A key that steers one of the paddles.
#[derive(Debug, Clone, Copy, PartialEq, Eq, Structural)]
pub enum Key {
    W,
    S,
    Up,
    Down,
}

#[verifier::external_type_specification]
#[verifier::external_body]
pub struct ExKeyCode(KeyCode);

#[verifier::external_type_specification]
#[verifier::external_body]
#[verifier::reject_recursive_types(T)]
pub struct ExInput<T: Copy + Eq + std::hash::Hash + Send + Sync + 'static>(Input<T>);

/// The steering keys that the keyboard state holds as pressed.
pub uninterp spec fn held_keys(input: Input<KeyCode>) -> Set<Key>;

/// Relies on bevy's `Input::pressed`, which tells whether the key code is in
/// the set of keys currently pressed.
#[verifier::external_body]
pub(crate) fn key_held(input: &Input<KeyCode>, key: Key) -> (r: bool)
    ensures
        r == held_keys(*input).contains(key),
{
    let code = match key {
        Key::W => KeyCode::W,
        Key::S => KeyCode::S,
        Key::Up => KeyCode::Up,
        Key::Down => KeyCode::Down,
    };
    input.pressed(code)
}

} // verus!
