use heroes_of_ironhold_core::scene::battle_test::damage::apply_damage;
use heroes_of_ironhold_core::scene::battle_test::sys_divine_stance::heal_amount;
use heroes_of_ironhold_core::scene::battle_test::sys_peon::{
    formation_cell, formation_order, mitigated_damage, next_walk_step, slot_index, strike_damage,
};
use heroes_of_ironhold_core::scene::battle_test::sys_ramhead_ai::ram_attack_damage;

#[test]
fn mitigated_damage_subtracts_armor() {
    assert_eq!(mitigated_damage(10, 3), 7);
    assert_eq!(mitigated_damage(5, 0), 5);
}

#[test]
fn mitigated_damage_never_below_one() {
    assert_eq!(mitigated_damage(3, 3), 1);
    assert_eq!(mitigated_damage(2, 10), 1);
    assert_eq!(mitigated_damage(1, 0), 1);
}

#[test]
fn strike_damage_defaults_and_floors_strength() {
    assert_eq!(strike_damage(None, 0), 1);
    assert_eq!(strike_damage(Some(0), 0), 1);
    assert_eq!(strike_damage(Some(-4), 0), 1);
    assert_eq!(strike_damage(Some(8), 2), 6);
    assert_eq!(strike_damage(Some(8), 20), 1);
}

#[test]
fn ram_attack_damage_is_strength_at_least_one() {
    assert_eq!(ram_attack_damage(None), 1);
    assert_eq!(ram_attack_damage(Some(0)), 1);
    assert_eq!(ram_attack_damage(Some(7)), 7);
}

#[test]
fn apply_damage_reports_the_killing_hit() {
    assert_eq!(apply_damage(30, 10), (20, false));
    assert_eq!(apply_damage(10, 10), (0, true));
    assert_eq!(apply_damage(5, 10), (0, true));
}

#[test]
fn apply_damage_on_dead_target_reports_no_second_death() {
    let (hp, died) = apply_damage(10, 25);
    assert_eq!((hp, died), (0, true));
    assert_eq!(apply_damage(hp, 10), (0, false));
    assert_eq!(apply_damage(hp, 0), (0, false));
}

#[test]
fn repeated_hits_report_exactly_one_death() {
    let mut hp = 50;
    let mut deaths = 0;
    for _ in 0..10 {
        let (h, died) = apply_damage(hp, 10);
        hp = h;
        if died {
            deaths += 1;
        }
    }
    assert_eq!(hp, 0);
    assert_eq!(deaths, 1);
}

#[test]
fn heal_is_capped_at_max() {
    assert_eq!(heal_amount(90, 100, 5), Some(5));
    assert_eq!(heal_amount(98, 100, 5), Some(2));
    assert_eq!(heal_amount(100, 100, 5), None);
    assert_eq!(heal_amount(120, 100, 5), None);
    assert_eq!(heal_amount(50, 100, 0), None);
}

#[test]
fn formation_order_sorts_ids() {
    let order = formation_order(&vec![42, 7, 19, 7, 3]);
    assert_eq!(order, vec![3, 7, 7, 19, 42]);
    assert_eq!(formation_order(&vec![]), Vec::<u64>::new());
}

#[test]
fn slot_index_finds_each_peon() {
    let order = formation_order(&vec![30, 10, 20]);
    assert_eq!(slot_index(&order, 10), Some(0));
    assert_eq!(slot_index(&order, 20), Some(1));
    assert_eq!(slot_index(&order, 30), Some(2));
    assert_eq!(slot_index(&order, 25), None);
    assert_eq!(slot_index(&Vec::new(), 1), None);
}

#[test]
fn formation_cells_fill_rows_of_three() {
    assert_eq!(formation_cell(0), (0, -1, false));
    assert_eq!(formation_cell(1), (0, 0, false));
    assert_eq!(formation_cell(2), (0, 1, false));
    assert_eq!(formation_cell(3), (1, -1, true));
    assert_eq!(formation_cell(7), (2, 0, false));
}

#[test]
fn walk_step_wraps() {
    assert_eq!(next_walk_step(0, 4), 1);
    assert_eq!(next_walk_step(3, 4), 0);
}
