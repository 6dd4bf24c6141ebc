//! Keyboard state: a mapping from logical key to pressed / released.
use std::collections::HashMap;
use vstd::prelude::*;

verus! {

broadcast use vstd::std_specs::hash::group_hash_axioms;

/// Logical key that moves the player up.
pub const KEY_UP: u32 = 0;

/// Logical key that moves the player down.
pub const KEY_DOWN: u32 = 1;

/// Logical key that moves the player left.
pub const KEY_LEFT: u32 = 2;

/// Logical key that moves the player right.
pub const KEY_RIGHT: u32 = 3;

/// Logical key that fires the weapon.
pub const KEY_FIRE: u32 = 4;

/// Whether `key` is held in the key map `keys`; a key never set is released.
pub open spec fn key_down(keys: Map<u32, bool>, key: u32) -> bool {
    keys.contains_key(key) && keys[key]
}

/// Pressed / released state of every key that an event has touched.
pub struct InputState {
    keys: HashMap<u32, bool>,
}

impl View for InputState {
    type V = Map<u32, bool>;

    closed spec fn view(&self) -> Map<u32, bool> {
        self.keys@
    }
}

impl InputState {
    /// A state in which no key is held.
    pub fn new() -> (r: InputState)
        ensures
            r@ == Map::<u32, bool>::empty(),
    {
        InputState { keys: HashMap::new() }
    }

    /// Records that `key` is now pressed or released, replacing what was known of it.
    pub fn set(&mut self, key: u32, pressed: bool)
        ensures
            final(self)@ == old(self)@.insert(key, pressed),
    {
        self.keys.insert(key, pressed);
    }

    /// Whether `key` is held; false for a key never set.
    pub fn is_down(&self, key: u32) -> (r: bool)
        ensures
            r == key_down(self@, key),
    {
        match self.keys.get(&key) {
            Some(pressed) => *pressed,
            None => false,
        }
    }
}

/// A key transition reported by the host.
#[derive(Clone, Copy, Debug, PartialEq, Eq, Structural)]
pub enum Msg {
    KeyDown(u32),
    KeyUp(u32),
}

/// Applies one key transition to the keyboard state.
pub fn update(input: &mut InputState, msg: Msg)
    ensures
        final(input)@ == match msg {
            Msg::KeyDown(k) => old(input)@.insert(k, true),
            Msg::KeyUp(k) => old(input)@.insert(k, false),
        },
{
    match msg {
        Msg::KeyDown(code) => input.set(code, true),
        Msg::KeyUp(code) => input.set(code, false),
    }
}

} // verus!
