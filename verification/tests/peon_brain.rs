use heroes_of_ironhold_core::scene::battle_test::sys_peon::{
    PeonAction, PeonBrain, PeonSenses, PeonState,
};

fn calm() -> PeonSenses {
    PeonSenses {
        enemy_in_reach: false,
        enemy_to_right: true,
        past_map_edge: false,
        past_knight: false,
        slot_reached: false,
        frame_due: false,
        recover_done: false,
        target_in_strike: false,
    }
}

#[test]
fn walking_peon_steers() {
    let out = PeonBrain::new().step(calm(), 3, 2);
    assert_eq!(out.action, PeonAction::Steer);
    assert_eq!(out.brain, PeonBrain::new());
    assert!(!out.attacking);
}

#[test]
fn enemy_in_reach_begins_attack_facing_it() {
    let s = PeonSenses { enemy_in_reach: true, enemy_to_right: false, ..calm() };
    let out = PeonBrain::new().step(s, 3, 2);
    assert_eq!(out.action, PeonAction::BeginAttack);
    assert_eq!(out.brain.state, PeonState::AttackHit1);
    assert_eq!(out.brain.attack_step, 0);
    assert!(!out.brain.facing_right);
    assert!(!out.strike);
}

#[test]
fn peon_past_the_map_despawns_and_past_knight_returns() {
    let out = PeonBrain::new().step(PeonSenses { past_map_edge: true, ..calm() }, 3, 2);
    assert_eq!(out.action, PeonAction::Despawn);
    let out = PeonBrain::new().step(PeonSenses { past_knight: true, ..calm() }, 3, 2);
    assert_eq!(out.action, PeonAction::Idle);
    assert_eq!(out.brain.state, PeonState::Return);
}

#[test]
fn returning_peon_walks_again_at_its_slot() {
    let mut b = PeonBrain::new();
    b.state = PeonState::Return;
    b.walk_step = 2;
    let out = b.step(PeonSenses { slot_reached: true, ..calm() }, 3, 2);
    assert_eq!(out.brain.state, PeonState::Walk);
    assert_eq!(out.brain.walk_step, 0);
    let out = b.step(calm(), 3, 2);
    assert_eq!(out.action, PeonAction::Steer);
}

#[test]
fn attack_plays_both_animations_then_recovers() {
    let mut b = PeonBrain::new();
    b = b.step(PeonSenses { enemy_in_reach: true, ..calm() }, 2, 2).brain;
    let due = PeonSenses { frame_due: true, ..calm() };
    let out = b.step(due, 2, 2);
    assert_eq!(out.action, PeonAction::ShowHit1(0));
    assert_eq!(out.brain.attack_step, 1);
    let out = out.brain.step(due, 2, 2);
    assert_eq!(out.action, PeonAction::ShowHit1(1));
    assert_eq!(out.brain.state, PeonState::AttackHit2);
    assert_eq!(out.brain.attack_step, 0);
    let out = out.brain.step(due, 2, 2);
    assert_eq!(out.action, PeonAction::ShowHit2(0));
    let out = out.brain.step(due, 2, 2);
    assert_eq!(out.action, PeonAction::ShowHit2(1));
    assert_eq!(out.brain.state, PeonState::Recover);
    let held = out.brain.step(calm(), 2, 2);
    assert_eq!(held.action, PeonAction::ShowHit2(1));
    assert_eq!(held.brain.state, PeonState::Recover);
    let back = held.brain.step(PeonSenses { recover_done: true, ..calm() }, 2, 2);
    assert_eq!(back.brain.state, PeonState::Walk);
}

#[test]
fn one_strike_per_attack() {
    let mut b = PeonBrain::new();
    b = b.step(PeonSenses { enemy_in_reach: true, ..calm() }, 3, 3).brain;
    let hit = PeonSenses { target_in_strike: true, ..calm() };
    let first = b.step(hit, 3, 3);
    assert!(first.attacking);
    assert!(first.strike);
    let second = first.brain.step(hit, 3, 3);
    assert!(second.attacking);
    assert!(!second.strike);
}
