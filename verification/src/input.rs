//! One frame of input for the control set: forward, sprint and turn-left.

use vstd::prelude::*;

verus! {

/// What one key did in a frame: the two edges and the level.
#[derive(Clone, Copy, Debug, PartialEq, Eq, Structural)]
pub struct KeyState {
    /// The key went down in this frame.
    pub just_pressed: bool,
    /// The key is down.
    pub held: bool,
    /// The key went up in this frame.
    pub just_released: bool,
}

/// Which keys of the control set are down at one moment.
#[derive(Clone, Copy, Debug, PartialEq, Eq, Structural)]
pub struct KeyLevels {
    pub forward: bool,
    pub sprint: bool,
    pub turn_left: bool,
}

/// The input of one frame.
#[derive(Clone, Copy, Debug, PartialEq, Eq, Structural)]
pub struct InputSnapshot {
    pub forward: KeyState,
    pub sprint: KeyState,
    pub turn_left: KeyState,
}

impl KeyState {
    /// The state of a key that was `was_down` in the frame before and is
    /// `is_down` now.
    pub open spec fn between(was_down: bool, is_down: bool) -> KeyState {
        KeyState {
            just_pressed: !was_down && is_down,
            held: is_down,
            just_released: was_down && !is_down,
        }
    }

    /// The key changed in this frame.
    pub open spec fn has_edge(self) -> bool {
        self.just_pressed || self.just_released
    }

    /// Derives a key's edges from its level in two frames that follow each
    /// other.
    pub fn from_levels(was_down: bool, is_down: bool) -> (state: KeyState)
        ensures
            state == KeyState::between(was_down, is_down),
    {
        KeyState { just_pressed: !was_down && is_down, held: is_down, just_released: was_down && !is_down }
    }
}

impl InputSnapshot {
    /// The snapshot of the frame that leads from `before` to `now`.
    pub open spec fn between(before: KeyLevels, now: KeyLevels) -> InputSnapshot {
        InputSnapshot {
            forward: KeyState::between(before.forward, now.forward),
            sprint: KeyState::between(before.sprint, now.sprint),
            turn_left: KeyState::between(before.turn_left, now.turn_left),
        }
    }

    /// No key of the control set changed in this frame.
    pub open spec fn edge_free(self) -> bool {
        !self.forward.has_edge() && !self.sprint.has_edge() && !self.turn_left.has_edge()
    }

    /// Samples a frame from the key levels of the frame before and of this
    /// one.
    pub fn from_levels(before: &KeyLevels, now: &KeyLevels) -> (snapshot: InputSnapshot)
        ensures
            snapshot == InputSnapshot::between(*before, *now),
    {
        InputSnapshot {
            forward: KeyState::from_levels(before.forward, now.forward),
            sprint: KeyState::from_levels(before.sprint, now.sprint),
            turn_left: KeyState::from_levels(before.turn_left, now.turn_left),
        }
    }
}

} // verus!
