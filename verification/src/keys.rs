//! The keyboard: the keys the game listens to, read off the engine's record
//! of what is pressed.

use vstd::prelude::*;

use bevy::input::keyboard::KeyCode;
use bevy::input::Input;

verus! {

/// `bevy::input::Input`, the engine's record of which buttons are held down
/// and which went down or up in this frame.
#[verifier::external_type_specification]
#[verifier::external_body]
#[verifier::reject_recursive_types(T)]
pub struct ExInput<T: Copy + Eq + std::hash::Hash + Send + Sync + 'static>(bevy::input::Input<T>);

/// `bevy::input::keyboard::KeyCode`, the engine's name of a key.
#[verifier::external_type_specification]
#[verifier::external_body]
pub struct ExKeyCode(bevy::input::keyboard::KeyCode);

/// The keys the game listens to.
#[derive(Debug, Clone, Copy, PartialEq, Eq, Structural)]
pub enum Key {
    W,
    A,
    S,
    D,
    Return,
    Space,
}

/// Those of the game's keys that `keyboard` records as held down.
pub uninterp spec fn keys_pressed(keyboard: Input<KeyCode>) -> Set<Key>;

/// Those of the game's keys that `keyboard` records as having gone down in
/// this frame.
pub uninterp spec fn keys_just_pressed(keyboard: Input<KeyCode>) -> Set<Key>;

/// `Input::pressed`, asked of the key code of `key`. Trusted: the answer is
/// whether the record holds the key as held down.
#[verifier::external_body]
pub(crate) fn pressed(keyboard: &Input<KeyCode>, key: Key) -> (down: bool)
    ensures
        down == keys_pressed(*keyboard).contains(key),
{
    keyboard.pressed(match key {
        Key::W => KeyCode::W,
        Key::A => KeyCode::A,
        Key::S => KeyCode::S,
        Key::D => KeyCode::D,
        Key::Return => KeyCode::Return,
        Key::Space => KeyCode::Space,
    })
}

/// `Input::just_pressed`, asked of the key code of `key`. Trusted: the answer
/// is whether the record holds the key as having gone down in this frame.
#[verifier::external_body]
pub(crate) fn just_pressed(keyboard: &Input<KeyCode>, key: Key) -> (down: bool)
    ensures
        down == keys_just_pressed(*keyboard).contains(key),
{
    keyboard.just_pressed(match key {
        Key::W => KeyCode::W,
        Key::A => KeyCode::A,
        Key::S => KeyCode::S,
        Key::D => KeyCode::D,
        Key::Return => KeyCode::Return,
        Key::Space => KeyCode::Space,
    })
}

/// `Input::clear`. Trusted: afterwards no key counts as having gone down in
/// this frame, and the keys held down are held down as before.
#[verifier::external_body]
pub(crate) fn clear(keyboard: &mut Input<KeyCode>)
    ensures
        keys_just_pressed(*final(keyboard)) =~= Set::empty(),
        keys_pressed(*final(keyboard)) == keys_pressed(*old(keyboard)),
{
    keyboard.clear();
}

} // verus!
