use locomotion::character::CharacterInstance;
use locomotion::clips::{AnimationCatalog, ClipRef};
use locomotion::controller::{
    movement_transition, turn_transition, ControllerConfig, FrameOutcome, LocomotionController,
};
use locomotion::input::{InputSnapshot, KeyLevels, KeyState};
use locomotion::transition::{LocomotionState, TransitionRequest};

const TURN_STEP: u32 = 3_417_826;

fn catalog() -> AnimationCatalog {
    AnimationCatalog {
        idle: ClipRef { index: 1 },
        left_turn: ClipRef { index: 2 },
        right_turn: ClipRef { index: 3 },
        run: ClipRef { index: 4 },
        run_backwards: ClipRef { index: 5 },
        walk: ClipRef { index: 6 },
        walk_backwards: ClipRef { index: 7 },
    }
}

fn controller() -> LocomotionController {
    LocomotionController::new(ControllerConfig::standard(), catalog())
}

fn ready_character(heading: u32) -> CharacterInstance {
    let mut character = CharacterInstance::new(heading);
    character.watch(&catalog(), true);
    character
}

fn levels(forward: bool, sprint: bool, turn_left: bool) -> KeyLevels {
    KeyLevels { forward, sprint, turn_left }
}

fn frames(path: &[KeyLevels]) -> Vec<InputSnapshot> {
    let mut before = levels(false, false, false);
    let mut out = Vec::new();
    for now in path {
        out.push(InputSnapshot::from_levels(&before, now));
        before = *now;
    }
    out
}

fn looping(index: u32) -> TransitionRequest {
    TransitionRequest { clip: ClipRef { index }, duration_ms: 100, looped: true }
}

const UP: KeyState = KeyState { just_pressed: false, held: false, just_released: false };
const DOWN: KeyState = KeyState { just_pressed: false, held: true, just_released: false };
const PRESSED: KeyState = KeyState { just_pressed: true, held: true, just_released: false };
const RELEASED: KeyState = KeyState { just_pressed: false, held: false, just_released: true };

fn snapshot(forward: KeyState, sprint: KeyState, turn_left: KeyState) -> InputSnapshot {
    InputSnapshot { forward, sprint, turn_left }
}

#[test]
fn edges_come_from_two_levels() {
    assert_eq!(KeyState::from_levels(false, false), UP);
    assert_eq!(KeyState::from_levels(false, true), PRESSED);
    assert_eq!(KeyState::from_levels(true, true), DOWN);
    assert_eq!(KeyState::from_levels(true, false), RELEASED);
    assert_eq!(
        InputSnapshot::from_levels(&levels(true, false, true), &levels(true, true, false)),
        snapshot(DOWN, PRESSED, RELEASED)
    );
}

#[test]
fn standard_constants() {
    let config = ControllerConfig::standard();
    assert_eq!(config.transition_ms, 100);
    assert_eq!(config.walk_step, 10);
    assert_eq!(config.turn_step, TURN_STEP);
    let radians = f64::from(config.turn_step) * std::f64::consts::TAU / 4_294_967_296.0;
    assert!((radians - 0.005).abs() < 1e-9);
}

#[test]
fn movement_rules_in_order() {
    assert_eq!(movement_transition(&snapshot(PRESSED, DOWN, UP)), Some(LocomotionState::Run));
    assert_eq!(movement_transition(&snapshot(DOWN, PRESSED, UP)), Some(LocomotionState::Run));
    assert_eq!(movement_transition(&snapshot(PRESSED, UP, UP)), Some(LocomotionState::Walk));
    assert_eq!(movement_transition(&snapshot(DOWN, RELEASED, UP)), Some(LocomotionState::Walk));
    assert_eq!(movement_transition(&snapshot(RELEASED, UP, UP)), Some(LocomotionState::Idle));
    assert_eq!(movement_transition(&snapshot(RELEASED, DOWN, UP)), Some(LocomotionState::Idle));
    assert_eq!(movement_transition(&snapshot(DOWN, DOWN, UP)), None);
    assert_eq!(movement_transition(&snapshot(DOWN, UP, DOWN)), None);
    assert_eq!(movement_transition(&snapshot(UP, PRESSED, UP)), None);
    assert_eq!(movement_transition(&snapshot(UP, RELEASED, PRESSED)), None);
}

#[test]
fn first_movement_rule_that_applies_decides() {
    let both_pressed = snapshot(PRESSED, PRESSED, UP);
    assert_eq!(movement_transition(&both_pressed), Some(LocomotionState::Run));
    let press_beats_release =
        snapshot(KeyState { just_pressed: true, held: true, just_released: true }, UP, UP);
    assert_eq!(movement_transition(&press_beats_release), Some(LocomotionState::Walk));
    let sprint_edge_beats_release =
        snapshot(KeyState { just_pressed: false, held: true, just_released: true }, PRESSED, UP);
    assert_eq!(movement_transition(&sprint_edge_beats_release), Some(LocomotionState::Run));
    let mut character = ready_character(0);
    let outcome = controller().step(&both_pressed, &mut character);
    assert_eq!(outcome.requests(), vec![looping(4)]);
}

#[test]
fn turn_rule() {
    assert_eq!(turn_transition(&snapshot(UP, UP, PRESSED)), Some(LocomotionState::TurningLeft));
    assert_eq!(turn_transition(&snapshot(UP, UP, DOWN)), None);
    assert_eq!(turn_transition(&snapshot(UP, UP, RELEASED)), None);
    assert_eq!(turn_transition(&snapshot(PRESSED, PRESSED, UP)), None);
}

#[test]
fn bind_happens_once_when_player_appears_on_frame_0() {
    bind_once_when_appearing_on(0);
}

#[test]
fn bind_happens_once_when_player_appears_on_frame_1() {
    bind_once_when_appearing_on(1);
}

#[test]
fn bind_happens_once_when_player_appears_on_frame_50() {
    bind_once_when_appearing_on(50);
}

fn bind_once_when_appearing_on(appears: u32) {
    let mut character = CharacterInstance::new(0);
    let mut binds = 0;
    let mut flips = 0;
    for frame in 0..120 {
        let before = character.bound_default();
        let request = character.watch(&catalog(), frame == appears);
        if before != character.bound_default() {
            flips += 1;
        }
        if let Some(request) = request {
            binds += 1;
            assert_eq!(frame, appears);
            assert_eq!(
                request,
                TransitionRequest { clip: ClipRef { index: 1 }, duration_ms: 0, looped: true }
            );
        }
        assert_eq!(character.bound_default(), frame >= appears);
        assert_eq!(character.has_capability(), frame >= appears);
    }
    assert_eq!(binds, 1);
    assert_eq!(flips, 1);
    assert_eq!(character.active(), Some(LocomotionState::Idle));
}

#[test]
fn nothing_is_bound_while_the_player_is_absent() {
    let mut character = CharacterInstance::new(7);
    for _ in 0..10 {
        assert_eq!(character.watch(&catalog(), false), None);
    }
    assert!(!character.bound_default());
    assert!(!character.has_capability());
    assert_eq!(character.active(), None);
    assert_eq!(character.heading(), 7);
}

#[test]
fn character_without_player_is_skipped() {
    let mut character = CharacterInstance::new(42);
    let outcome = controller().step(&snapshot(PRESSED, DOWN, PRESSED), &mut character);
    assert_eq!(
        outcome,
        FrameOutcome { movement: None, turn: None, yaw: 0, advance: 0, heading: 42 }
    );
    assert_eq!(character.heading(), 42);
    assert_eq!(character.active(), None);
    assert!(!character.bound_default());
}

#[test]
fn holding_forward_issues_one_request() {
    let mut path = vec![levels(true, false, false)];
    for _ in 0..200 {
        path.push(levels(true, false, false));
    }
    let mut character = ready_character(0);
    let issued = controller().replay(&frames(&path), &mut character);
    assert_eq!(issued, vec![looping(6)]);
    assert_eq!(character.active(), Some(LocomotionState::Walk));
}

#[test]
fn held_frames_issue_nothing() {
    let held = vec![snapshot(DOWN, DOWN, DOWN); 30];
    let mut character = ready_character(0);
    let issued = controller().replay(&held, &mut character);
    assert_eq!(issued, Vec::new());
    assert_eq!(character.active(), Some(LocomotionState::Idle));
}

#[test]
fn press_w_press_shift_release_shift_release_w() {
    let path = [
        levels(true, false, false),
        levels(true, true, false),
        levels(true, false, false),
        levels(false, false, false),
    ];
    let mut character = ready_character(0);
    let issued = controller().replay(&frames(&path), &mut character);
    assert_eq!(issued, vec![looping(6), looping(4), looping(6), looping(1)]);
    assert_eq!(issued[1..], [looping(4), looping(6), looping(1)]);
    assert_eq!(character.active(), Some(LocomotionState::Idle));
}

#[test]
fn each_step_of_the_key_sequence_enters_its_state() {
    let path = [
        levels(true, false, false),
        levels(true, true, false),
        levels(true, false, false),
        levels(false, false, false),
    ];
    let expected = [
        LocomotionState::Walk,
        LocomotionState::Run,
        LocomotionState::Walk,
        LocomotionState::Idle,
    ];
    let mut character = ready_character(0);
    for (input, state) in frames(&path).iter().zip(expected) {
        let outcome = controller().step(input, &mut character);
        assert_eq!(outcome.turn, None);
        assert_eq!(outcome.requests().len(), 1);
        assert_eq!(character.active(), Some(state));
    }
}

#[test]
fn running_covers_twice_the_walking_distance() {
    let config = ControllerConfig::standard();
    assert_eq!(config.advance(&snapshot(DOWN, UP, UP)), 10);
    assert_eq!(config.advance(&snapshot(DOWN, DOWN, UP)), 20);
    assert_eq!(config.advance(&snapshot(PRESSED, UP, UP)), 10);
    assert_eq!(config.advance(&snapshot(PRESSED, PRESSED, UP)), 20);
    assert_eq!(config.advance(&snapshot(UP, DOWN, UP)), 0);
    assert_eq!(config.advance(&snapshot(RELEASED, DOWN, DOWN)), 0);
    let widest = ControllerConfig { transition_ms: 500, walk_step: u32::MAX, turn_step: 1 };
    assert_eq!(widest.advance(&snapshot(DOWN, UP, UP)), 4_294_967_295);
    assert_eq!(widest.advance(&snapshot(DOWN, DOWN, UP)), 8_589_934_590);
}

#[test]
fn turn_accumulates_while_held_and_stops_on_release() {
    let path = [
        levels(false, false, true),
        levels(false, false, true),
        levels(false, false, true),
        levels(false, false, false),
        levels(false, false, false),
    ];
    let mut character = ready_character(1000);
    let mut headings = Vec::new();
    let mut yaws = Vec::new();
    for input in frames(&path) {
        let outcome = controller().step(&input, &mut character);
        headings.push(character.heading());
        yaws.push(outcome.yaw);
    }
    assert_eq!(
        headings,
        vec![
            1000 + TURN_STEP,
            1000 + 2 * TURN_STEP,
            1000 + 3 * TURN_STEP,
            1000 + 3 * TURN_STEP,
            1000 + 3 * TURN_STEP
        ]
    );
    assert_eq!(yaws, vec![TURN_STEP, TURN_STEP, TURN_STEP, 0, 0]);
}

#[test]
fn turn_request_is_issued_on_the_press_only_and_plays_once() {
    let path = [levels(false, false, true), levels(false, false, true), levels(false, false, false)];
    let mut character = ready_character(0);
    let issued = controller().replay(&frames(&path), &mut character);
    assert_eq!(
        issued,
        vec![TransitionRequest { clip: ClipRef { index: 2 }, duration_ms: 100, looped: false }]
    );
    assert_eq!(character.active(), Some(LocomotionState::TurningLeft));
    assert_eq!(character.heading(), 2 * TURN_STEP);
}

#[test]
fn heading_wraps_at_a_full_turn() {
    let mut character = ready_character(u32::MAX - 5);
    let outcome = controller().step(&snapshot(UP, UP, DOWN), &mut character);
    assert_eq!(outcome.heading, TURN_STEP - 6);
    assert_eq!(character.heading(), TURN_STEP - 6);
}

#[test]
fn forward_and_turn_rotate_then_translate() {
    let mut character = ready_character(500);
    let outcome = controller().step(&snapshot(PRESSED, UP, PRESSED), &mut character);
    assert_eq!(
        outcome,
        FrameOutcome {
            movement: Some(looping(6)),
            turn: Some(TransitionRequest {
                clip: ClipRef { index: 2 },
                duration_ms: 100,
                looped: false
            }),
            yaw: TURN_STEP,
            advance: 10,
            heading: 500 + TURN_STEP,
        }
    );
    assert_eq!(character.heading(), 500 + TURN_STEP);
    assert_eq!(outcome.requests(), vec![outcome.movement.unwrap(), outcome.turn.unwrap()]);
    assert_eq!(outcome.last_request(), outcome.turn);
    assert_eq!(character.active(), Some(LocomotionState::TurningLeft));
}

#[test]
fn last_request_of_a_frame() {
    let mut character = ready_character(0);
    let quiet = controller().step(&snapshot(DOWN, UP, DOWN), &mut character);
    assert_eq!(quiet.last_request(), None);
    assert_eq!(quiet.requests(), Vec::new());
    let moving = controller().step(&snapshot(RELEASED, UP, DOWN), &mut character);
    assert_eq!(moving.last_request(), Some(looping(1)));
}

#[test]
fn configured_duration_is_used_for_every_request() {
    let config = ControllerConfig { transition_ms: 500, walk_step: 3, turn_step: 9 };
    let controller = LocomotionController::new(config, catalog());
    let mut character = ready_character(0);
    let outcome = controller.step(&snapshot(PRESSED, DOWN, PRESSED), &mut character);
    assert_eq!(
        outcome.movement,
        Some(TransitionRequest { clip: ClipRef { index: 4 }, duration_ms: 500, looped: true })
    );
    assert_eq!(
        outcome.turn,
        Some(TransitionRequest { clip: ClipRef { index: 2 }, duration_ms: 500, looped: false })
    );
    assert_eq!(outcome.advance, 6);
    assert_eq!(outcome.yaw, 9);
    assert_eq!(controller.request(None), None);
    assert_eq!(
        controller.request(Some(LocomotionState::Idle)),
        Some(TransitionRequest { clip: ClipRef { index: 1 }, duration_ms: 500, looped: true })
    );
}

#[test]
fn repeating_a_request_keeps_the_target_state() {
    let mut character = ready_character(0);
    let first = controller().step(&snapshot(PRESSED, DOWN, UP), &mut character);
    let again = controller().step(&snapshot(DOWN, PRESSED, UP), &mut character);
    assert_eq!(first.movement, again.movement);
    assert_eq!(character.active(), Some(LocomotionState::Run));
}
