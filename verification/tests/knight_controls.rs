use heroes_of_ironhold_core::entity::knight::{AttackKind, AttackPhase, Facing};
use heroes_of_ironhold_core::scene::asset_preview::sys_knight_controls::{
    axis, walks_backward, ControlInput, KnightControlSystem, KnightFrame,
};

fn input() -> ControlInput {
    ControlInput {
        left: false,
        right: false,
        up: false,
        down: false,
        shift: false,
        attack_pressed: false,
        phase_time_up: false,
        lock_running: false,
        dashing: false,
        walk_frame_due: false,
        facing: Some(Facing::Right),
    }
}

#[test]
fn axis_from_opposite_keys() {
    assert_eq!(axis(true, false), -1);
    assert_eq!(axis(false, true), 1);
    assert_eq!(axis(true, true), 0);
    assert_eq!(axis(false, false), 0);
}

#[test]
fn backward_walk_against_facing_with_shift() {
    assert!(walks_backward(true, Some(Facing::Left), 1));
    assert!(walks_backward(true, Some(Facing::Right), -1));
    assert!(!walks_backward(false, Some(Facing::Right), -1));
    assert!(!walks_backward(true, Some(Facing::Right), 1));
    assert!(!walks_backward(true, None, 1));
}

#[test]
fn combo_alternates_thrust_and_swipe() {
    let mut c = KnightControlSystem::new();
    let out = c.update(ControlInput { attack_pressed: true, ..input() }, 4);
    assert_eq!(out.entered, Some(AttackPhase::Windup));
    assert_eq!(c.current_attack, Some(AttackKind::Thrust));
    // Queue the follow-up during the windup.
    c.update(ControlInput { attack_pressed: true, ..input() }, 4);
    assert_eq!(c.buffered, Some(AttackKind::Swipe));
    let out = c.update(ControlInput { phase_time_up: true, ..input() }, 4);
    assert_eq!(c.phase, AttackPhase::Strike);
    assert!(out.lock_started);
    assert_eq!(out.frame, KnightFrame::Attack(AttackKind::Thrust));
    c.update(ControlInput { phase_time_up: true, ..input() }, 4);
    assert_eq!(c.phase, AttackPhase::Recovery);
    let out = c.update(ControlInput { phase_time_up: true, ..input() }, 4);
    assert_eq!(c.phase, AttackPhase::Windup);
    assert_eq!(c.current_attack, Some(AttackKind::Swipe));
    assert_eq!(c.buffered, None);
    assert_eq!(out.entered, Some(AttackPhase::Windup));
}

#[test]
fn turning_restarts_the_combo_with_a_thrust() {
    let mut c = KnightControlSystem::new();
    c.update(ControlInput { attack_pressed: true, ..input() }, 4);
    assert_eq!(c.current_attack, Some(AttackKind::Thrust));
    // Turn left and attack in the same frame: the queue is dropped and the
    // next attack is a thrust again.
    let out = c.update(ControlInput { left: true, attack_pressed: true, ..input() }, 4);
    assert_eq!(out.steered, Some(Facing::Left));
    assert_eq!(c.buffered, Some(AttackKind::Thrust));
    assert!(!c.combo_reset);
}

#[test]
fn shift_strafes_without_turning() {
    let mut c = KnightControlSystem::new();
    let out = c.update(ControlInput { left: true, shift: true, walk_frame_due: true, ..input() }, 4);
    assert_eq!(out.steered, None);
    assert_eq!(out.dir_x, -1);
    // Backward walk cycle: step 0 goes to 3.
    assert_eq!(out.frame, KnightFrame::Walk(3));
}

#[test]
fn face_lock_writes_back_the_strike_facing() {
    let mut c = KnightControlSystem::new();
    c.update(ControlInput { attack_pressed: true, ..input() }, 4);
    let out = c.update(ControlInput { phase_time_up: true, ..input() }, 4);
    assert!(out.lock_started);
    assert_eq!(c.locked_facing, Some(Facing::Right));
    let out = c.update(
        ControlInput { left: true, lock_running: true, facing: Some(Facing::Right), ..input() },
        4,
    );
    assert_eq!(out.steered, Some(Facing::Left));
    assert_eq!(out.relocked, Some(Facing::Right));
}

#[test]
fn walking_and_dashing_frames() {
    let mut c = KnightControlSystem::new();
    let out = c.update(ControlInput { up: true, walk_frame_due: true, ..input() }, 4);
    assert_eq!(out.frame, KnightFrame::Walk(1));
    assert_eq!(out.dir_y, -1);
    let out = c.update(ControlInput { up: true, dashing: true, ..input() }, 4);
    assert_eq!(out.frame, KnightFrame::Idle);
    let out = c.update(input(), 4);
    assert_eq!(out.frame, KnightFrame::Idle);
    assert_eq!(c.last_scheduled(), None);
}
