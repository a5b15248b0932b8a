//! Keyboard state tracking.

use vstd::prelude::*;

use std::collections::HashSet;

use crate::event::ElementState;

verus! {

broadcast use vstd::std_specs::hash::group_hash_axioms;

/// Keeps track of which keys are currently held down.
pub struct KeyboardState {
    pub pressed: HashSet<u32>,
}

impl View for KeyboardState {
    type V = Set<u32>;

    open spec fn view(&self) -> Set<u32> {
        self.pressed@
    }
}

/// The pressed-key set after one key transition.
pub open spec fn spec_key_transition(pressed: Set<u32>, state: ElementState, code: u32) -> Set<
    u32,
> {
    match state {
        ElementState::Pressed => pressed.insert(code),
        ElementState::Released => pressed.remove(code),
    }
}

impl KeyboardState {
    /// A keyboard state with every key released.
    pub fn new() -> (k: KeyboardState)
        ensures
            k@ == Set::<u32>::empty(),
    {
        KeyboardState { pressed: HashSet::new() }
    }

    /// Whether `key` is currently pressed.
    pub fn is_pressed(&self, key: u32) -> (r: bool)
        ensures
            r == self@.contains(key),
    {
        self.pressed.contains(&key)
    }

    /// Whether `key` is currently released.
    pub fn is_released(&self, key: u32) -> (r: bool)
        ensures
            r == !self@.contains(key),
    {
        !self.is_pressed(key)
    }

    /// Records one key transition.
    pub fn process_event(&mut self, key_state: ElementState, code: u32)
        ensures
            final(self)@ == spec_key_transition(old(self)@, key_state, code),
    {
        match key_state {
            ElementState::Pressed => {
                self.pressed.insert(code);
            },
            ElementState::Released => {
                self.pressed.remove(&code);
            },
        }
    }
}

} // verus!
