use heroes_of_ironhold_core::scene::battle_test::sys_ramhead_ai::{
    RamBrain, RamFrame, RamMode, RamSenses,
};

fn senses() -> RamSenses {
    RamSenses {
        attack_expired: false,
        charge_ready: false,
        mode_time_up: false,
        attack_ready: false,
        target_in_front: None,
        frame_due: false,
        moving: true,
    }
}

#[test]
fn ram_charge_cycle() {
    let b = RamBrain::new();
    let out = b.step(RamSenses { charge_ready: true, ..senses() }, 4, 3);
    assert_eq!(out.brain.mode, RamMode::Windup);
    assert_eq!(out.entered, Some(RamMode::Windup));
    let out = out.brain.step(RamSenses { mode_time_up: true, ..senses() }, 4, 3);
    assert_eq!(out.brain.mode, RamMode::Charge);
    let out = out.brain.step(RamSenses { mode_time_up: true, ..senses() }, 4, 3);
    assert_eq!(out.brain.mode, RamMode::Recover);
    let out = out.brain.step(RamSenses { mode_time_up: true, ..senses() }, 4, 3);
    assert_eq!(out.brain.mode, RamMode::Stalk);
    assert_eq!(out.entered, Some(RamMode::Stalk));
}

#[test]
fn ram_strikes_prey_in_front_while_stalking() {
    let s = RamSenses { attack_ready: true, target_in_front: Some(9), ..senses() };
    let out = RamBrain::new().step(s, 4, 3);
    assert_eq!(out.strike, Some(9));
    assert!(out.brain.attacking);
    assert_eq!(out.brain.attack_target, Some(9));
    assert_eq!(out.frame, RamFrame::Attack(0));
}

#[test]
fn ram_does_not_strike_twice_while_attacking() {
    let s = RamSenses { attack_ready: true, target_in_front: Some(9), ..senses() };
    let out = RamBrain::new().step(s, 4, 3);
    let again = out.brain.step(s, 4, 3);
    assert_eq!(again.strike, None);
    assert!(again.brain.attacking);
    let over = again.brain.step(RamSenses { attack_expired: true, ..senses() }, 4, 3);
    assert!(!over.brain.attacking);
    assert_eq!(over.brain.attack_target, None);
}

#[test]
fn charge_connecting_ends_the_charge() {
    let mut b = RamBrain::new();
    b.mode = RamMode::Charge;
    let out = b.step(RamSenses { attack_ready: true, target_in_front: Some(4), ..senses() }, 4, 3);
    assert_eq!(out.strike, Some(4));
    assert_eq!(out.brain.mode, RamMode::Recover);
    assert_eq!(out.entered, Some(RamMode::Recover));
}

#[test]
fn no_strike_during_windup() {
    let mut b = RamBrain::new();
    b.mode = RamMode::Windup;
    let out = b.step(RamSenses { attack_ready: true, target_in_front: Some(4), ..senses() }, 4, 3);
    assert_eq!(out.strike, None);
}

#[test]
fn ram_walk_frames_cycle_and_stand() {
    let mut b = RamBrain::new();
    b.walk_step = 3;
    let out = b.step(RamSenses { frame_due: true, ..senses() }, 4, 3);
    assert_eq!(out.frame, RamFrame::Walk(3));
    assert_eq!(out.brain.walk_step, 0);
    let still = b.step(RamSenses { moving: false, ..senses() }, 4, 3);
    assert_eq!(still.frame, RamFrame::Standing);
}
