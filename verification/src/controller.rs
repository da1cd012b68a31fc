//! The locomotion controller: each frame it maps the input to a turn, a step
//! forward and the crossfades to request.

use vstd::prelude::*;
use vstd::arithmetic::div_mod::lemma_small_mod;
use crate::character::{full_turn, turned, CharacterInstance, CharacterView};
use crate::clips::AnimationCatalog;
use crate::input::InputSnapshot;
use crate::transition::{LocomotionState, TransitionRequest};

verus! {

/// The controller's constants.
#[derive(Clone, Copy, Debug, PartialEq, Eq, Structural)]
pub struct ControllerConfig {
    /// The crossfade duration of every request of the controller, in
    /// milliseconds.
    pub transition_ms: u32,
    /// The distance walked in one frame, in thousandths of a world unit.
    /// Running covers twice as much.
    pub walk_step: u32,
    /// The yaw added in one frame while turning, in binary angle units.
    pub turn_step: u32,
}

/// What the controller decided for one frame. The transform's owner applies
/// it in this order: rotate by `yaw` about the vertical axis, then move
/// `advance` along the forward axis of the rotated character, which then
/// faces `heading`. The blender gets `movement` first and `turn` second, so
/// that the later supersedes the earlier.
#[derive(Clone, Copy, Debug, PartialEq, Eq, Structural)]
pub struct FrameOutcome {
    /// The request of the movement axis.
    pub movement: Option<TransitionRequest>,
    /// The request of the turn axis.
    pub turn: Option<TransitionRequest>,
    /// The yaw of this frame, in binary angle units.
    pub yaw: u32,
    /// The distance covered in this frame, in thousandths of a world unit.
    pub advance: u64,
    /// The heading along which `advance` is covered.
    pub heading: u32,
}

/// The per-frame state machine of one kind of character: its constants and
/// the catalog that its requests draw on.
#[derive(Clone, Copy, Debug, PartialEq, Eq, Structural)]
pub struct LocomotionController {
    pub config: ControllerConfig,
    pub catalog: AnimationCatalog,
}

/// The state that the movement axis enters in a frame. The rules are tried in
/// this order and the first that applies decides.
pub open spec fn movement_target(input: InputSnapshot) -> Option<LocomotionState> {
    if input.forward.just_pressed && input.sprint.held {
        Some(LocomotionState::Run)
    } else if input.forward.held && input.sprint.just_pressed {
        Some(LocomotionState::Run)
    } else if input.forward.just_pressed && !input.sprint.held {
        Some(LocomotionState::Walk)
    } else if input.forward.held && input.sprint.just_released {
        Some(LocomotionState::Walk)
    } else if input.forward.just_released {
        Some(LocomotionState::Idle)
    } else {
        None
    }
}

/// The state that the turn axis enters in a frame.
pub open spec fn turn_target(input: InputSnapshot) -> Option<LocomotionState> {
    if input.turn_left.just_pressed {
        Some(LocomotionState::TurningLeft)
    } else {
        None
    }
}

/// The state that the character is in after the frame's requests, if there
/// were any: the turn axis is served last.
pub open spec fn entered(input: InputSnapshot) -> Option<LocomotionState> {
    if turn_target(input) is Some {
        turn_target(input)
    } else {
        movement_target(input)
    }
}

/// Decides the movement axis for one frame.
pub fn movement_transition(input: &InputSnapshot) -> (target: Option<LocomotionState>)
    ensures
        target == movement_target(*input),
{
    if input.forward.just_pressed && input.sprint.held {
        Some(LocomotionState::Run)
    } else if input.forward.held && input.sprint.just_pressed {
        Some(LocomotionState::Run)
    } else if input.forward.just_pressed {
        Some(LocomotionState::Walk)
    } else if input.forward.held && input.sprint.just_released {
        Some(LocomotionState::Walk)
    } else if input.forward.just_released {
        Some(LocomotionState::Idle)
    } else {
        None
    }
}

/// Decides the turn axis for one frame.
pub fn turn_transition(input: &InputSnapshot) -> (target: Option<LocomotionState>)
    ensures
        target == turn_target(*input),
{
    if input.turn_left.just_pressed {
        Some(LocomotionState::TurningLeft)
    } else {
        None
    }
}

impl ControllerConfig {
    /// The distance run in one frame: twice the walking step.
    pub open spec fn run_step(self) -> int {
        2 * self.walk_step
    }

    /// The distance covered in a frame: none unless forward is held, the
    /// running step with sprint held, the walking step without.
    pub open spec fn advance_for(self, input: InputSnapshot) -> int {
        if !input.forward.held {
            0
        } else if input.sprint.held {
            self.run_step()
        } else {
            self.walk_step as int
        }
    }

    /// The yaw of a frame: the turn step while turn-left is held.
    pub open spec fn yaw_for(self, input: InputSnapshot) -> u32 {
        if input.turn_left.held {
            self.turn_step
        } else {
            0
        }
    }

    /// The usual constants: crossfades of a tenth of a second, a walking
    /// step of a hundredth of a unit, and a turn step of five thousandths of
    /// a radian.
    pub open spec fn standard_values() -> ControllerConfig {
        ControllerConfig { transition_ms: 100, walk_step: 10, turn_step: 3_417_826 }
    }

    /// The usual constants.
    pub fn standard() -> (config: ControllerConfig)
        ensures
            config == ControllerConfig::standard_values(),
    {
        ControllerConfig { transition_ms: 100, walk_step: 10, turn_step: 3_417_826 }
    }

    /// The distance to cover in this frame.
    pub fn advance(&self, input: &InputSnapshot) -> (distance: u64)
        ensures
            distance == self.advance_for(*input),
    {
        if !input.forward.held {
            0
        } else if input.sprint.held {
            2 * (self.walk_step as u64)
        } else {
            self.walk_step as u64
        }
    }

    /// The yaw to add in this frame.
    pub fn yaw(&self, input: &InputSnapshot) -> (yaw: u32)
        ensures
            yaw == self.yaw_for(*input),
    {
        if input.turn_left.held {
            self.turn_step
        } else {
            0
        }
    }
}

impl FrameOutcome {
    /// The outcome of a frame in which the controller did not run.
    pub open spec fn idle_at(heading: u32) -> FrameOutcome {
        FrameOutcome { movement: None, turn: None, yaw: 0, advance: 0, heading }
    }

    /// The frame's requests in the order in which the blender gets them.
    pub open spec fn issued(self) -> Seq<TransitionRequest> {
        let first = match self.movement {
            Some(request) => seq![request],
            None => Seq::empty(),
        };
        match self.turn {
            Some(request) => first.push(request),
            None => first,
        }
    }

    /// The request that is in force after the frame, if the frame had one.
    pub open spec fn in_force(self) -> Option<TransitionRequest> {
        if self.turn is Some {
            self.turn
        } else {
            self.movement
        }
    }

    /// The frame's requests in the order in which the blender gets them.
    pub fn requests(&self) -> (list: Vec<TransitionRequest>)
        ensures
            list@ == self.issued(),
    {
        let mut list: Vec<TransitionRequest> = Vec::new();
        if let Some(request) = self.movement {
            list.push(request);
        }
        assert(list@ =~= match self.movement {
            Some(request) => seq![request],
            None => Seq::empty(),
        });
        if let Some(request) = self.turn {
            list.push(request);
        }
        list
    }

    /// The request that is in force after the frame: the last one issued.
    pub fn last_request(&self) -> (request: Option<TransitionRequest>)
        ensures
            request == self.in_force(),
            request == if self.issued().len() == 0 {
                None
            } else {
                Some(self.issued().last())
            },
    {
        if self.turn.is_some() {
            self.turn
        } else {
            self.movement
        }
    }
}

impl LocomotionController {
    /// The request that enters `target`, where there is one.
    pub open spec fn request_for(self, target: Option<LocomotionState>) -> Option<TransitionRequest> {
        match target {
            Some(state) => Some(
                TransitionRequest::entering(self.catalog, state, self.config.transition_ms),
            ),
            None => None,
        }
    }

    /// What the controller decides for a frame. It runs only for a character
    /// whose animation player is there; otherwise the frame is skipped.
    pub open spec fn outcome(self, input: InputSnapshot, character: CharacterView) -> FrameOutcome {
        if !character.capability {
            FrameOutcome::idle_at(character.heading)
        } else {
            FrameOutcome {
                movement: self.request_for(movement_target(input)),
                turn: self.request_for(turn_target(input)),
                yaw: self.config.yaw_for(input),
                advance: self.config.advance_for(input) as u64,
                heading: turned(character.heading, self.config.yaw_for(input)),
            }
        }
    }

    /// The character after the frame.
    pub open spec fn next(self, input: InputSnapshot, character: CharacterView) -> CharacterView {
        if !character.capability {
            character
        } else {
            character.moved(self.config.yaw_for(input), entered(input))
        }
    }

    /// The character after a run of frames.
    pub open spec fn run_state(
        self,
        inputs: Seq<InputSnapshot>,
        character: CharacterView,
    ) -> CharacterView
        decreases inputs.len(),
    {
        if inputs.len() == 0 {
            character
        } else {
            self.next(inputs.last(), self.run_state(inputs.drop_last(), character))
        }
    }

    /// The requests of a run of frames, in the order in which they are
    /// issued.
    pub open spec fn run_requests(
        self,
        inputs: Seq<InputSnapshot>,
        character: CharacterView,
    ) -> Seq<TransitionRequest>
        decreases inputs.len(),
    {
        if inputs.len() == 0 {
            Seq::empty()
        } else {
            self.run_requests(inputs.drop_last(), character) + self.outcome(
                inputs.last(),
                self.run_state(inputs.drop_last(), character),
            ).issued()
        }
    }

    /// A controller with its constants and the catalog it draws on.
    pub fn new(config: ControllerConfig, catalog: AnimationCatalog) -> (controller:
        LocomotionController)
        ensures
            controller.config == config,
            controller.catalog == catalog,
    {
        LocomotionController { config, catalog }
    }

    /// Builds the request that enters `target`, where there is one.
    pub fn request(&self, target: Option<LocomotionState>) -> (request: Option<TransitionRequest>)
        ensures
            request == self.request_for(target),
    {
        match target {
            Some(state) => Some(
                TransitionRequest::enter(&self.catalog, state, self.config.transition_ms),
            ),
            None => None,
        }
    }

    /// One frame of the controller for one character. A character without an
    /// animation player is skipped: nothing moves and nothing is requested.
    /// Otherwise each axis issues the request of the first of its rules that
    /// applies, the character turns by the frame's yaw, and the distance of
    /// the frame is covered along the heading that the turn has led to.
    pub fn step(&self, input: &InputSnapshot, character: &mut CharacterInstance) -> (outcome:
        FrameOutcome)
        ensures
            outcome == self.outcome(*input, old(character)@),
            final(character)@ == self.next(*input, old(character)@),
            final(character)@.well_formed(),
            outcome.heading == final(character)@.heading,
            outcome.heading == turned(old(character)@.heading, outcome.yaw),
            outcome.issued().len() > 0 ==> old(character)@.bound_default,
    {
        if !character.has_capability() {
            proof {
                lemma_small_mod(character@.heading as nat, full_turn() as nat);
            }
            return FrameOutcome {
                movement: None,
                turn: None,
                yaw: 0,
                advance: 0,
                heading: character.heading(),
            };
        }
        let movement = movement_transition(input);
        let turn = turn_transition(input);
        let yaw: u32 = self.config.yaw(input);
        let last = if turn.is_some() {
            turn
        } else {
            movement
        };
        character.advance(yaw, last);
        FrameOutcome {
            movement: self.request(movement),
            turn: self.request(turn),
            yaw,
            advance: self.config.advance(input),
            heading: character.heading(),
        }
    }

    /// Runs the controller over a run of frames and collects the requests in
    /// the order in which they were issued.
    pub fn replay(&self, inputs: &Vec<InputSnapshot>, character: &mut CharacterInstance) -> (issued:
        Vec<TransitionRequest>)
        ensures
            issued@ == self.run_requests(inputs@, old(character)@),
            final(character)@ == self.run_state(inputs@, old(character)@),
            final(character)@.well_formed(),
    {
        proof {
            use_type_invariant(&*character);
        }
        let ghost start = character@;
        let mut issued: Vec<TransitionRequest> = Vec::new();
        let mut i: usize = 0;
        while i < inputs.len()
            invariant
                i <= inputs.len(),
                start == old(character)@,
                character@.well_formed(),
                character@ == self.run_state(inputs@.take(i as int), start),
                issued@ == self.run_requests(inputs@.take(i as int), start),
            decreases inputs.len() - i,
        {
            let outcome = self.step(&inputs[i], character);
            let mut requests = outcome.requests();
            issued.append(&mut requests);
            proof {
                assert(inputs@.take(i + 1).drop_last() =~= inputs@.take(i as int));
                assert(inputs@.take(i + 1).last() == inputs@[i as int]);
            }
            i += 1;
        }
        proof {
            assert(inputs@.take(inputs@.len() as int) =~= inputs@);
        }
        issued
    }
}

} // verus!
