use heroes_of_ironhold_core::scene::battle_test::hits::{
    resolve_disc_round, resolve_enemy_strike, resolve_hits, resolve_peon_attack,
    resolve_sword_strikes, CombatEvent, Combatant, DamageRule, Stats,
};

fn ram(id: u64, hp: i32, armor: i32, has_body: bool) -> Combatant {
    Combatant { id, stats: Some(Stats { hp, armor }), has_body }
}

#[test]
fn peon_swing_damages_by_strength_less_armor() {
    let mut rams = vec![ram(10, 20, 2, true), ram(11, 3, 0, false)];
    let events = resolve_peon_attack(&mut rams, true, Some(5), 1, &vec![10, 11]);
    assert_eq!(rams[0].stats.unwrap().hp, 17);
    assert_eq!(rams[1].stats.unwrap().hp, 0);
    assert_eq!(
        events,
        vec![
            CombatEvent::HealthChange { entity: 10, amount: -3 },
            CombatEvent::Hit { victim: 10, attacker: 1 },
            CombatEvent::Death(11),
            CombatEvent::Hit { victim: 11, attacker: 1 },
        ]
    );
}

#[test]
fn attack_of_a_non_peon_changes_nothing() {
    let mut rams = vec![ram(10, 20, 0, true)];
    let events = resolve_peon_attack(&mut rams, false, Some(5), 1, &vec![10]);
    assert!(events.is_empty());
    assert_eq!(rams[0].stats.unwrap().hp, 20);
}

#[test]
fn peon_without_stats_hits_for_one_and_armor_never_blocks_all() {
    let mut rams = vec![ram(10, 20, 50, true)];
    resolve_peon_attack(&mut rams, true, None, 1, &vec![10]);
    assert_eq!(rams[0].stats.unwrap().hp, 19);
    resolve_peon_attack(&mut rams, true, Some(-4), 1, &vec![10]);
    assert_eq!(rams[0].stats.unwrap().hp, 18);
}

#[test]
fn target_without_stats_or_absent_only_gets_a_hit_event() {
    let mut rams = vec![Combatant { id: 10, stats: None, has_body: true }];
    let events = resolve_peon_attack(&mut rams, true, Some(5), 1, &vec![10, 99]);
    assert_eq!(
        events,
        vec![
            CombatEvent::Hit { victim: 10, attacker: 1 },
            CombatEvent::Hit { victim: 99, attacker: 1 },
        ]
    );
    assert_eq!(rams[0].stats, None);
}

#[test]
fn a_dead_target_is_not_reported_dead_again() {
    let mut rams = vec![ram(10, 10, 0, false)];
    let events = resolve_hits(&mut rams, 2, DamageRule::Flat(10), &vec![10, 10]);
    assert_eq!(
        events,
        vec![
            CombatEvent::Death(10),
            CombatEvent::Hit { victim: 10, attacker: 2 },
            CombatEvent::Hit { victim: 10, attacker: 2 },
        ]
    );
    assert_eq!(rams[0].stats.unwrap().hp, 0);
}

#[test]
fn sword_and_disc_deal_flat_ten_whatever_the_armor() {
    let mut rams = vec![ram(10, 25, 8, true), ram(11, 25, 0, true)];
    let events = resolve_sword_strikes(&mut rams, 3, &vec![10]);
    assert_eq!(rams[0].stats.unwrap().hp, 15);
    assert_eq!(events[0], CombatEvent::HealthChange { entity: 10, amount: -10 });
    resolve_disc_round(&mut rams, 3, &vec![10, 11]);
    assert_eq!(rams[0].stats.unwrap().hp, 5);
    assert_eq!(rams[1].stats.unwrap().hp, 15);
}

#[test]
fn ram_strike_hurts_a_peon_with_body() {
    let mut peons = vec![ram(5, 4, 0, true), ram(6, 4, 0, false)];
    let events = resolve_enemy_strike(&mut peons, 5, 6);
    assert_eq!(
        events,
        vec![CombatEvent::Death(5), CombatEvent::HealthChange { entity: 5, amount: -6 }]
    );
    assert_eq!(peons[0].stats.unwrap().hp, 0);
    let events = resolve_enemy_strike(&mut peons, 6, 1);
    assert!(events.is_empty());
    assert_eq!(peons[1].stats.unwrap().hp, 4);
    let events = resolve_enemy_strike(&mut peons, 7, 1);
    assert!(events.is_empty());
}
