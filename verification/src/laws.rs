//! What holds of the watcher and the controller over whole runs of frames.

use vstd::prelude::*;
use vstd::arithmetic::div_mod::lemma_add_mod_noop_right;
use vstd::arithmetic::div_mod::lemma_small_mod;
use crate::character::{full_turn, turned, CharacterView};
use crate::controller::{ControllerConfig, LocomotionController};
use crate::input::InputSnapshot;

verus! {

/// The character after the watcher has seen a run of frames; `presents` says
/// of each frame whether the animation player appeared in it.
pub open spec fn watch_state(character: CharacterView, presents: Seq<bool>) -> CharacterView
    decreases presents.len(),
{
    if presents.len() == 0 {
        character
    } else {
        watch_state(character, presents.drop_last()).watched(presents.last())
    }
}

/// The number of frames of a run in which the watcher binds the default clip.
pub open spec fn bind_count(character: CharacterView, presents: Seq<bool>) -> nat
    decreases presents.len(),
{
    if presents.len() == 0 {
        0
    } else {
        let binds: nat = if watch_state(character, presents.drop_last()).binds(presents.last()) {
            1
        } else {
            0
        };
        bind_count(character, presents.drop_last()) + binds
    }
}

/// The number of frames of a run in which turn-left is held.
pub open spec fn turning_frames(inputs: Seq<InputSnapshot>) -> nat
    decreases inputs.len(),
{
    if inputs.len() == 0 {
        0
    } else {
        let held: nat = if inputs.last().turn_left.held {
            1
        } else {
            0
        };
        turning_frames(inputs.drop_last()) + held
    }
}

/// The default clip is bound exactly once, however late the animation player
/// appears: over any run of frames the watcher binds once if the player
/// appears in one of them and never if it does not, and the character is
/// marked as bound exactly when it has appeared.
pub proof fn lemma_default_bound_once(character: CharacterView, presents: Seq<bool>)
    requires
        !character.capability,
        !character.bound_default,
    ensures
        bind_count(character, presents) == if presents.contains(true) {
            1nat
        } else {
            0nat
        },
        watch_state(character, presents).bound_default == presents.contains(true),
        watch_state(character, presents).capability == presents.contains(true),
        watch_state(character, presents).heading == character.heading,
    decreases presents.len(),
{
    if presents.len() > 0 {
        let earlier = presents.drop_last();
        lemma_default_bound_once(character, earlier);
        if earlier.contains(true) {
            let i = choose|i: int| 0 <= i < earlier.len() && earlier[i] == true;
            assert(presents[i] == true);
        }
        if presents.last() {
            assert(presents[presents.len() - 1] == true);
        }
        if presents.contains(true) && !presents.last() {
            let i = choose|i: int| 0 <= i < presents.len() && presents[i] == true;
            assert(earlier[i] == true);
        }
    }
}

/// Once the default clip is bound the watcher stays silent: no later frame
/// binds again, whatever it reports.
pub proof fn lemma_bound_stays_bound(character: CharacterView, presents: Seq<bool>)
    requires
        character.bound_default,
    ensures
        bind_count(character, presents) == 0,
        watch_state(character, presents).bound_default,
    decreases presents.len(),
{
    if presents.len() > 0 {
        lemma_bound_stays_bound(character, presents.drop_last());
    }
}

/// The controller leaves the binding alone: over any run of frames the
/// character keeps its animation player and its mark of the default bind.
pub proof fn lemma_run_keeps_binding(
    controller: LocomotionController,
    inputs: Seq<InputSnapshot>,
    character: CharacterView,
)
    ensures
        controller.run_state(inputs, character).capability == character.capability,
        controller.run_state(inputs, character).bound_default == character.bound_default,
    decreases inputs.len(),
{
    if inputs.len() > 0 {
        lemma_run_keeps_binding(controller, inputs.drop_last(), character);
    }
}

/// The default bind comes first: the controller issues requests only for a
/// character whose default clip was bound, and a character whose player has
/// not appeared is passed over, frame after frame, without a request and
/// without a move.
pub proof fn lemma_nothing_before_the_bind(
    controller: LocomotionController,
    inputs: Seq<InputSnapshot>,
    character: CharacterView,
)
    requires
        character.well_formed(),
        !character.bound_default,
    ensures
        controller.run_requests(inputs, character).len() == 0,
        controller.run_state(inputs, character) == character,
    decreases inputs.len(),
{
    if inputs.len() > 0 {
        lemma_nothing_before_the_bind(controller, inputs.drop_last(), character);
    }
}

/// Every character that the watcher and the controller lead to is well
/// formed.
pub proof fn lemma_well_formed_is_kept(
    controller: LocomotionController,
    input: InputSnapshot,
    present: bool,
    character: CharacterView,
)
    requires
        character.well_formed(),
    ensures
        character.watched(present).well_formed(),
        controller.next(input, character).well_formed(),
        CharacterView::spawned(character.heading).well_formed(),
{
}

/// A frame without an edge issues no request and leaves the playing state as
/// it is.
pub proof fn lemma_edge_free_frame_is_silent(
    controller: LocomotionController,
    input: InputSnapshot,
    character: CharacterView,
)
    requires
        input.edge_free(),
    ensures
        controller.outcome(input, character).issued() == Seq::<
            crate::transition::TransitionRequest,
        >::empty(),
        controller.next(input, character).active == character.active,
{
}

/// Holding keys issues nothing: a run of frames of which none has an edge
/// yields no request, however long it is.
pub proof fn lemma_held_run_is_silent(
    controller: LocomotionController,
    inputs: Seq<InputSnapshot>,
    character: CharacterView,
)
    requires
        forall|i: int| 0 <= i < inputs.len() ==> (#[trigger] inputs[i]).edge_free(),
    ensures
        controller.run_requests(inputs, character).len() == 0,
        controller.run_state(inputs, character).active == character.active,
    decreases inputs.len(),
{
    if inputs.len() > 0 {
        let earlier = inputs.drop_last();
        assert forall|i: int| 0 <= i < earlier.len() implies (#[trigger] earlier[i]).edge_free() by {
            assert(earlier[i] == inputs[i]);
        }
        lemma_held_run_is_silent(controller, earlier, character);
        lemma_edge_free_frame_is_silent(
            controller,
            inputs.last(),
            controller.run_state(earlier, character),
        );
    }
}

/// A press that is then held issues its requests once: when no frame after
/// the first has an edge, the run's requests are those of the first frame,
/// at most one for each axis.
pub proof fn lemma_hold_issues_once(
    controller: LocomotionController,
    inputs: Seq<InputSnapshot>,
    character: CharacterView,
)
    requires
        inputs.len() > 0,
        forall|i: int| 1 <= i < inputs.len() ==> (#[trigger] inputs[i]).edge_free(),
    ensures
        controller.run_requests(inputs, character) == controller.outcome(
            inputs[0],
            character,
        ).issued(),
        controller.run_requests(inputs, character).len() <= 2,
        !inputs[0].turn_left.just_pressed ==> controller.run_requests(inputs, character).len() <= 1,
    decreases inputs.len(),
{
    let earlier = inputs.drop_last();
    if inputs.len() == 1 {
        assert(controller.run_requests(earlier, character) =~= Seq::empty());
        assert(controller.run_requests(inputs, character) =~= controller.outcome(
            inputs[0],
            character,
        ).issued());
    } else {
        assert forall|i: int| 1 <= i < earlier.len() implies (#[trigger] earlier[i]).edge_free() by {
            assert(earlier[i] == inputs[i]);
        }
        assert(earlier[0] == inputs[0]);
        lemma_hold_issues_once(controller, earlier, character);
        lemma_edge_free_frame_is_silent(
            controller,
            inputs.last(),
            controller.run_state(earlier, character),
        );
        assert(controller.run_requests(inputs, character) =~= controller.run_requests(
            earlier,
            character,
        ));
    }
}

/// Running covers exactly twice the distance of walking in a frame.
pub proof fn lemma_run_doubles_walk(
    controller: LocomotionController,
    walking: InputSnapshot,
    running: InputSnapshot,
    character: CharacterView,
)
    requires
        character.capability,
        walking.forward.held && !walking.sprint.held,
        running.forward.held && running.sprint.held,
    ensures
        controller.config.advance_for(running) == 2 * controller.config.advance_for(walking),
        controller.outcome(running, character).advance == 2 * controller.outcome(
            walking,
            character,
        ).advance,
        controller.outcome(walking, character).advance == controller.config.walk_step,
{
}

/// The yaw of a frame goes by the level of turn-left alone: the heading moves
/// on by the turn step while the key is held and stays where it is from the
/// frame of the release on.
pub proof fn lemma_turn_follows_key(
    controller: LocomotionController,
    input: InputSnapshot,
    character: CharacterView,
)
    requires
        character.capability,
    ensures
        input.turn_left.held ==> controller.next(input, character).heading == turned(
            character.heading,
            controller.config.turn_step,
        ),
        !input.turn_left.held ==> controller.next(input, character).heading == character.heading
            && controller.outcome(input, character).yaw == 0,
{
    lemma_small_mod(character.heading as nat, full_turn() as nat);
}

/// The turn accumulates with the frames in which turn-left is held and with
/// no others: after a run the heading is the first heading plus one turn step
/// for each such frame, taken in full turns.
pub proof fn lemma_turn_accumulates(
    controller: LocomotionController,
    inputs: Seq<InputSnapshot>,
    character: CharacterView,
)
    requires
        character.capability,
    ensures
        controller.run_state(inputs, character).heading as int == (character.heading
            + controller.config.turn_step * turning_frames(inputs)) % full_turn(),
    decreases inputs.len(),
{
    let step = controller.config.turn_step as int;
    if inputs.len() == 0 {
        lemma_small_mod(character.heading as nat, full_turn() as nat);
        assert(step * 0 == 0);
    } else {
        let earlier = inputs.drop_last();
        let before = controller.run_state(earlier, character);
        let n = turning_frames(earlier) as int;
        lemma_turn_accumulates(controller, earlier, character);
        lemma_run_keeps_binding(controller, earlier, character);
        lemma_turn_follows_key(controller, inputs.last(), before);
        if inputs.last().turn_left.held {
            assert(step * (n + 1) == step * n + step) by (nonlinear_arith);
            lemma_add_mod_noop_right(step, character.heading + step * n, full_turn());
        }
    }
}

/// The accumulated turn never goes back: a longer run has at least as many
/// turning frames as each of its beginnings.
pub proof fn lemma_turn_is_monotone(inputs: Seq<InputSnapshot>, k: int)
    requires
        0 <= k <= inputs.len(),
    ensures
        turning_frames(inputs.take(k)) <= turning_frames(inputs),
    decreases inputs.len(),
{
    if k == inputs.len() {
        assert(inputs.take(k) =~= inputs);
    } else {
        assert(inputs.drop_last().take(k) =~= inputs.take(k));
        lemma_turn_is_monotone(inputs.drop_last(), k);
    }
}

/// Rotation comes before translation: the distance of a frame is covered
/// along the heading that the frame's own yaw has led to, which is the
/// heading that the character keeps.
pub proof fn lemma_advance_follows_turn(
    controller: LocomotionController,
    input: InputSnapshot,
    character: CharacterView,
)
    requires
        character.capability,
    ensures
        controller.outcome(input, character).heading == turned(
            character.heading,
            controller.outcome(input, character).yaw,
        ),
        controller.outcome(input, character).heading == controller.next(input, character).heading,
        controller.outcome(input, character).advance == controller.config.advance_for(input),
{
}

/// The usual constants turn by five thousandths of a radian a frame, to
/// the nearest unit below: 2^32 units are a full turn of 6.283185307 radians.
pub proof fn lemma_standard_turn_step()
    ensures
        ControllerConfig::standard_values().turn_step * 6_283_185_307 <= 5_000_000 * full_turn(),
        5_000_000 * full_turn() < (ControllerConfig::standard_values().turn_step + 1)
            * 6_283_185_307,
{
}

} // verus!
