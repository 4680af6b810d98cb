use heroes_of_ironhold_core::entity::skill::{SkillDirection, SkillIconKind};
use heroes_of_ironhold_core::scene::battle_test::sys_shield_toss::{
    DiscPhase, DiscView, ShieldDisc, DISC_ROUNDS,
};
use heroes_of_ironhold_core::scene::battle_test::sys_skill::{
    cast_accepted, skill_for_direction, SelectorInput, SkillSystem,
};
use heroes_of_ironhold_core::scene::battle_test::sys_swords_skill::{
    first_cut, FlyingSword, SwordPhase, SwordView,
};

fn keys() -> SelectorInput {
    SelectorInput {
        knight_locked: false,
        skills_pressed: false,
        skills_held: false,
        skills_released: false,
        up_pressed: false,
        down_pressed: false,
        left_pressed: false,
        right_pressed: false,
        last_direction: None,
    }
}

#[test]
fn selector_opens_picks_and_casts_on_release() {
    let mut s = SkillSystem::new();
    let out = s.update(SelectorInput { skills_pressed: true, skills_held: true, ..keys() });
    assert!(out.opened);
    assert_eq!(s.pending, Some(SkillDirection::Up));
    s.update(SelectorInput { skills_held: true, left_pressed: true, ..keys() });
    assert_eq!(s.pending, Some(SkillDirection::Left));
    let out = s.update(SelectorInput { skills_released: true, ..keys() });
    assert!(out.closed);
    assert_eq!(out.fire, Some(SkillDirection::Left));
    assert!(!s.selector_open);
    let out = s.update(SelectorInput { skills_released: true, ..keys() });
    assert_eq!(out.fire, None);
}

#[test]
fn selector_reopens_on_last_used_direction() {
    let mut s = SkillSystem::new();
    s.update(SelectorInput {
        skills_pressed: true,
        last_direction: Some(SkillDirection::Down),
        ..keys()
    });
    assert_eq!(s.pending, Some(SkillDirection::Down));
}

#[test]
fn selector_ignored_while_knight_locked() {
    let mut s = SkillSystem::new();
    let out = s.update(SelectorInput { knight_locked: true, skills_pressed: true, ..keys() });
    assert!(!out.opened);
    assert!(!s.selector_open);
}

#[test]
fn skill_lookup_by_direction() {
    let skills = vec![
        (Some(SkillDirection::Up), Some(SkillIconKind::Sword)),
        (None, Some(SkillIconKind::Potion)),
        (Some(SkillDirection::Right), None),
        (Some(SkillDirection::Right), Some(SkillIconKind::Shield)),
        (Some(SkillDirection::Down), Some(SkillIconKind::ShieldToss)),
    ];
    assert_eq!(skill_for_direction(&skills, SkillDirection::Up), Some(SkillIconKind::Sword));
    assert_eq!(skill_for_direction(&skills, SkillDirection::Right), None);
    assert_eq!(
        skill_for_direction(&skills, SkillDirection::Down),
        Some(SkillIconKind::ShieldToss)
    );
    assert_eq!(skill_for_direction(&skills, SkillDirection::Left), None);
}

#[test]
fn cast_gate_rules() {
    let k = SkillIconKind::DivineStance;
    assert!(cast_accepted(k, k, false, Some(false)));
    assert!(!cast_accepted(k, SkillIconKind::Sword, false, Some(false)));
    assert!(!cast_accepted(k, k, true, Some(false)));
    assert!(!cast_accepted(k, k, false, Some(true)));
    assert!(!cast_accepted(k, k, false, None));
}

fn disc_view() -> DiscView {
    DiscView { hit_detected: false, out_of_range: false, glide_done: false, round_ticks: 0 }
}

#[test]
fn disc_deals_five_rounds() {
    let mut d = ShieldDisc::new();
    let mut total = 0;
    total += d.update(disc_view()).rounds;
    assert_eq!(d.phase, DiscPhase::Flying);
    let out = d.update(DiscView { hit_detected: true, ..disc_view() });
    assert!(out.start_glide);
    let out = d.update(DiscView { glide_done: true, ..disc_view() });
    assert!(out.start_grind);
    total += out.rounds;
    let out = d.update(DiscView { round_ticks: 2, ..disc_view() });
    total += out.rounds;
    assert!(!out.despawn);
    let out = d.update(DiscView { round_ticks: 7, ..disc_view() });
    total += out.rounds;
    assert!(out.despawn);
    assert_eq!(total, DISC_ROUNDS);
}

#[test]
fn disc_out_of_range_vanishes_without_damage() {
    let mut d = ShieldDisc::new();
    let out = d.update(DiscView { out_of_range: true, ..disc_view() });
    assert!(out.despawn);
    assert_eq!(out.rounds, 0);
}

fn sword_view() -> SwordView {
    SwordView {
        delay_over: false,
        appeared: false,
        hit: None,
        out_of_range: false,
        slice_done: false,
        fade_done: false,
    }
}

#[test]
fn sword_life_strikes_once() {
    let mut s = FlyingSword::new();
    s.update(SwordView { delay_over: true, ..sword_view() });
    assert_eq!(s.phase, SwordPhase::Appearing);
    let out = s.update(sword_view());
    assert!(!out.moves);
    let out = s.update(SwordView { appeared: true, ..sword_view() });
    assert!(out.moves);
    assert_eq!(s.phase, SwordPhase::Flying);
    let out = s.update(SwordView { appeared: true, hit: Some(5), ..sword_view() });
    assert_eq!(out.strike, Some(5));
    assert_eq!(s.phase, SwordPhase::Slicing);
    let out = s.update(SwordView { hit: Some(6), ..sword_view() });
    assert_eq!(out.strike, None);
    let out = s.update(SwordView { slice_done: true, ..sword_view() });
    assert_eq!(s.phase, SwordPhase::Fading);
    assert!(!out.despawn);
    let out = s.update(SwordView { hit: Some(6), fade_done: true, ..sword_view() });
    assert!(out.despawn);
    assert_eq!(out.strike, None);
}

#[test]
fn sword_missing_everything_vanishes_at_range() {
    let mut s = FlyingSword { phase: SwordPhase::Flying };
    let out = s.update(SwordView { appeared: true, out_of_range: true, ..sword_view() });
    assert!(out.despawn);
    assert_eq!(out.strike, None);
}

#[test]
fn first_cut_picks_the_first_hit_enemy() {
    assert_eq!(first_cut(&vec![4, 8, 15], &vec![false, true, true]), Some(8));
    assert_eq!(first_cut(&vec![4, 8], &vec![false, false]), None);
    assert_eq!(first_cut(&vec![], &vec![]), None);
}
