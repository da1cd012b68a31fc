//! A controllable character, and the watcher that binds its default clip once
//! its animation player has appeared.

use vstd::prelude::*;
use crate::clips::AnimationCatalog;
use crate::transition::{LocomotionState, TransitionRequest};

verus! {

/// Headings are binary angles: a full turn is 2^32 units, so that adding
/// modulo 2^32 is adding angles.
pub open spec fn full_turn() -> int {
    0x1_0000_0000
}

/// The heading reached from `heading` by turning `yaw` units to the left.
pub open spec fn turned(heading: u32, yaw: u32) -> u32 {
    ((heading + yaw) % full_turn()) as u32
}

/// What a character is, as the contracts speak of it.
pub struct CharacterView {
    /// The rotation about the vertical axis, in binary angle units.
    pub heading: u32,
    /// The animation player of the character's model has appeared.
    pub capability: bool,
    /// The default clip was bound.
    pub bound_default: bool,
    /// The state whose clip was requested last, if any was.
    pub active: Option<LocomotionState>,
}

/// One controllable character. Its model loads in the background, so its
/// animation player may be absent for any number of frames. Every value of
/// the type is well formed.
#[derive(Clone, Copy, Debug)]
pub struct CharacterInstance {
    heading: u32,
    capability: bool,
    bound_default: bool,
    active: Option<LocomotionState>,
}

impl View for CharacterInstance {
    type V = CharacterView;

    closed spec fn view(&self) -> CharacterView {
        CharacterView {
            heading: self.heading,
            capability: self.capability,
            bound_default: self.bound_default,
            active: self.active,
        }
    }
}

impl CharacterView {
    /// What holds of every character: the watcher binds in the frame in which
    /// it learns of the player, so the player is known exactly when the
    /// default clip was bound, and a state is active exactly from then on.
    pub open spec fn well_formed(self) -> bool {
        self.capability == self.bound_default && (self.active is Some) == self.bound_default
    }

    /// A character as it is spawned.
    pub open spec fn spawned(heading: u32) -> CharacterView {
        CharacterView { heading, capability: false, bound_default: false, active: None }
    }

    /// The watcher binds the default clip in a frame in which the player is
    /// there (`present`: it has appeared in this frame) and nothing was bound
    /// yet.
    pub open spec fn binds(self, present: bool) -> bool {
        (self.capability || present) && !self.bound_default
    }

    /// The character after the watcher has seen one frame.
    pub open spec fn watched(self, present: bool) -> CharacterView {
        if self.binds(present) {
            CharacterView {
                capability: true,
                bound_default: true,
                active: Some(LocomotionState::Idle),
                ..self
            }
        } else {
            CharacterView { capability: self.capability || present, ..self }
        }
    }

    /// The character after a frame in which it turned by `yaw` and `entered`
    /// was requested, if anything was.
    pub open spec fn moved(self, yaw: u32, entered: Option<LocomotionState>) -> CharacterView {
        CharacterView {
            heading: turned(self.heading, yaw),
            active: if entered is Some {
                entered
            } else {
                self.active
            },
            ..self
        }
    }
}

/// The request that binds the default clip: idle, at once, looping.
pub open spec fn default_bind(catalog: AnimationCatalog) -> TransitionRequest {
    TransitionRequest::entering(catalog, LocomotionState::Idle, 0)
}

impl CharacterInstance {
    /// The invariant of the type.
    #[verifier::type_invariant]
    pub open spec fn consistent(self) -> bool {
        self@.well_formed()
    }

    /// A character as it is spawned, facing `heading`: without a player and
    /// with nothing bound.
    pub fn new(heading: u32) -> (character: CharacterInstance)
        ensures
            character@ == CharacterView::spawned(heading),
            character@.well_formed(),
    {
        CharacterInstance { heading, capability: false, bound_default: false, active: None }
    }

    /// The rotation about the vertical axis, in binary angle units.
    pub fn heading(&self) -> (heading: u32)
        ensures
            heading == self@.heading,
    {
        self.heading
    }

    /// Whether the animation player has appeared.
    pub fn has_capability(&self) -> (capability: bool)
        ensures
            capability == self@.capability,
            self@.well_formed(),
    {
        proof {
            use_type_invariant(self);
        }
        self.capability
    }

    /// Whether the default clip was bound.
    pub fn bound_default(&self) -> (bound: bool)
        ensures
            bound == self@.bound_default,
            self@.well_formed(),
    {
        proof {
            use_type_invariant(self);
        }
        self.bound_default
    }

    /// The state whose clip was requested last.
    pub fn active(&self) -> (active: Option<LocomotionState>)
        ensures
            active == self@.active,
            self@.well_formed(),
    {
        proof {
            use_type_invariant(self);
        }
        self.active
    }

    /// The watcher's step for one frame. `present` says that the character's
    /// animation player has appeared in this frame. In the first frame in
    /// which it has, the idle clip is requested, at once and looping, and the
    /// character is marked as bound; in every other frame nothing is
    /// requested and nothing changes.
    pub fn watch(&mut self, catalog: &AnimationCatalog, present: bool) -> (request: Option<
        TransitionRequest,
    >)
        ensures
            final(self)@ == old(self)@.watched(present),
            final(self)@.well_formed(),
            request == if old(self)@.binds(present) {
                Some(default_bind(*catalog))
            } else {
                None
            },
            request is Some <==> present && !old(self)@.bound_default,
            request is Some <==> !old(self)@.bound_default && final(self)@.bound_default,
    {
        proof {
            use_type_invariant(&*self);
        }
        if present && !self.bound_default {
            *self = CharacterInstance {
                heading: self.heading,
                capability: true,
                bound_default: true,
                active: Some(LocomotionState::Idle),
            };
            Some(TransitionRequest::enter(catalog, LocomotionState::Idle, 0))
        } else {
            None
        }
    }

    /// Turns the character by `yaw` and records the state that was entered.
    pub(crate) fn advance(&mut self, yaw: u32, entered: Option<LocomotionState>)
        requires
            old(self)@.capability,
        ensures
            final(self)@ == old(self)@.moved(yaw, entered),
            final(self)@.well_formed(),
    {
        proof {
            use_type_invariant(&*self);
        }
        let active = if entered.is_some() {
            entered
        } else {
            self.active
        };
        *self = CharacterInstance {
            heading: self.heading.wrapping_add(yaw),
            capability: self.capability,
            bound_default: self.bound_default,
            active,
        };
    }
}

} // verus!
