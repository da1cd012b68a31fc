//! The states of the locomotion machine and the requests it hands to the
//! animation blender.

use vstd::prelude::*;
use crate::clips::{AnimationCatalog, ClipName, ClipRef};

verus! {

/// A state of the locomotion machine. Each state plays one clip.
#[derive(Clone, Copy, Debug, PartialEq, Eq, Structural)]
pub enum LocomotionState {
    Idle,
    Walk,
    WalkBackward,
    Run,
    RunBackward,
    TurningLeft,
    TurningRight,
}

/// What the blender is asked to do: crossfade to `clip` over `duration_ms`
/// milliseconds, then loop it (`looped`) or play it once and hold its last
/// frame.
#[derive(Clone, Copy, Debug, PartialEq, Eq, Structural)]
pub struct TransitionRequest {
    pub clip: ClipRef,
    pub duration_ms: u32,
    pub looped: bool,
}

impl LocomotionState {
    /// The name of the clip that the state plays.
    pub open spec fn clip_name(self) -> ClipName {
        match self {
            LocomotionState::Idle => ClipName::Idle,
            LocomotionState::Walk => ClipName::Walk,
            LocomotionState::WalkBackward => ClipName::WalkBackwards,
            LocomotionState::Run => ClipName::Run,
            LocomotionState::RunBackward => ClipName::RunBackwards,
            LocomotionState::TurningLeft => ClipName::LeftTurn,
            LocomotionState::TurningRight => ClipName::RightTurn,
        }
    }

    /// Whether the state's clip repeats. A turn is played once, to either
    /// side; every other clip loops.
    pub open spec fn loops(self) -> bool {
        self != LocomotionState::TurningLeft && self != LocomotionState::TurningRight
    }

    /// The name of the clip that the state plays.
    pub fn clip(&self) -> (name: ClipName)
        ensures
            name == self.clip_name(),
    {
        match self {
            LocomotionState::Idle => ClipName::Idle,
            LocomotionState::Walk => ClipName::Walk,
            LocomotionState::WalkBackward => ClipName::WalkBackwards,
            LocomotionState::Run => ClipName::Run,
            LocomotionState::RunBackward => ClipName::RunBackwards,
            LocomotionState::TurningLeft => ClipName::LeftTurn,
            LocomotionState::TurningRight => ClipName::RightTurn,
        }
    }

    /// Whether the state's clip repeats.
    pub fn is_looped(&self) -> (looped: bool)
        ensures
            looped == self.loops(),
    {
        match self {
            LocomotionState::TurningLeft => false,
            LocomotionState::TurningRight => false,
            _ => true,
        }
    }
}

impl TransitionRequest {
    /// The request that enters `state`, crossfading over `duration_ms`.
    pub open spec fn entering(
        catalog: AnimationCatalog,
        state: LocomotionState,
        duration_ms: u32,
    ) -> TransitionRequest {
        TransitionRequest { clip: catalog.clip(state.clip_name()), duration_ms, looped: state.loops() }
    }

    /// Builds the request that enters `state`: the state's clip out of the
    /// catalog, the given crossfade duration, and the state's loop flag.
    pub fn enter(catalog: &AnimationCatalog, state: LocomotionState, duration_ms: u32) -> (request:
        TransitionRequest)
        ensures
            request == TransitionRequest::entering(*catalog, state, duration_ms),
    {
        TransitionRequest {
            clip: catalog.resolve(state.clip()),
            duration_ms,
            looped: state.is_looped(),
        }
    }
}

} // verus!
