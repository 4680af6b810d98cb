use heroes_of_ironhold_core::entity::skill::SkillIconKind;
use heroes_of_ironhold_core::scene::battle_test::sys_consecration::{
    ConsecrationSystem, ConsecrationView,
};
use heroes_of_ironhold_core::scene::battle_test::sys_divine_stance::{
    heal_amount, DivineStanceSystem, StanceView,
};
use heroes_of_ironhold_core::scene::battle_test::sys_guardian_shield::{
    GuardPhase, GuardView, GuardianShieldSystem,
};
use heroes_of_ironhold_core::scene::battle_test::sys_shield_toss::{
    DiscPhase, DiscView, ShieldTossSystem, TossView, DISC_ROUNDS,
};
use heroes_of_ironhold_core::scene::battle_test::sys_swords_skill::{
    SwordPhase, SwordView, SwordsSkillSystem, SWORD_COUNT,
};

const FREE: Option<bool> = Some(false);
const LOCKED: Option<bool> = Some(true);

fn guard(stance_over: bool, life_over: bool) -> GuardView {
    GuardView { stance_over, life_over }
}

#[test]
fn guardian_shield_stance_then_shield_then_idle() {
    let mut s = GuardianShieldSystem::new();
    assert!(!s.begin_cast(SkillIconKind::Sword, FREE));
    assert!(!s.begin_cast(SkillIconKind::Shield, LOCKED));
    assert!(!s.begin_cast(SkillIconKind::Shield, None));
    assert_eq!(s.phase, GuardPhase::Idle);
    assert!(s.begin_cast(SkillIconKind::Shield, FREE));
    assert_eq!(s.phase, GuardPhase::Stance);
    // A second cast while the stance runs is ignored.
    assert!(!s.begin_cast(SkillIconKind::Shield, FREE));

    let out = s.update(guard(false, false));
    assert!(!out.release_lock && !out.appear && !out.vanish);
    let out = s.update(guard(true, false));
    assert!(out.release_lock && out.appear && !out.vanish);
    assert_eq!(s.phase, GuardPhase::Shielded);
    assert!(!s.begin_cast(SkillIconKind::Shield, FREE));

    let out = s.update(guard(true, false));
    assert!(!out.release_lock && !out.appear && !out.vanish);
    let out = s.update(guard(false, true));
    assert!(out.vanish && !out.release_lock);
    assert_eq!(s.phase, GuardPhase::Idle);
    assert!(s.begin_cast(SkillIconKind::Shield, FREE));
}

#[test]
fn guardian_shield_idle_frames_do_nothing() {
    let mut s = GuardianShieldSystem::new();
    let out = s.update(guard(true, true));
    assert!(!out.release_lock && !out.appear && !out.vanish);
    assert_eq!(s.phase, GuardPhase::Idle);
}

#[test]
fn consecration_lock_and_area_end_on_their_own_timers() {
    let mut s = ConsecrationSystem::new();
    assert!(!s.begin_cast(SkillIconKind::Consecration, FREE, false));
    assert!(!s.begin_cast(SkillIconKind::DivineStance, FREE, true));
    assert!(s.begin_cast(SkillIconKind::Consecration, FREE, true));
    assert!(s.active && s.locking);
    assert!(!s.begin_cast(SkillIconKind::Consecration, FREE, true));

    let out = s.update(ConsecrationView { lock_over: true, area_over: false });
    assert!(out.release_lock && !out.vanish);
    assert!(s.active && !s.locking);
    // The area still burns: another cast is refused.
    assert!(!s.begin_cast(SkillIconKind::Consecration, FREE, true));
    // The lock is not released twice.
    let out = s.update(ConsecrationView { lock_over: true, area_over: false });
    assert!(!out.release_lock);
    let out = s.update(ConsecrationView { lock_over: false, area_over: true });
    assert!(out.vanish);
    assert!(!s.active);
    assert!(s.begin_cast(SkillIconKind::Consecration, FREE, true));
}

fn stance_view() -> StanceView {
    StanceView {
        cooldown_over: false,
        lock_over: false,
        heal_due: false,
        knight_inside: false,
        area_over: false,
    }
}

#[test]
fn divine_stance_heals_only_inside_a_live_zone() {
    let mut s = DivineStanceSystem::new();
    let out = s.update(StanceView { heal_due: true, knight_inside: true, ..stance_view() });
    assert!(!out.heal);

    assert!(s.begin_cast(SkillIconKind::DivineStance, FREE, true));
    assert!(s.active && s.locking && s.cooling);
    let out = s.update(StanceView { heal_due: true, knight_inside: false, ..stance_view() });
    assert!(!out.heal);
    let out = s.update(StanceView { heal_due: true, knight_inside: true, lock_over: true, ..stance_view() });
    assert!(out.heal && out.release_lock);
    // A knight at 90 of 100 healed by a 5-point tick.
    assert_eq!(heal_amount(90, 100, 5), Some(5));
    let out = s.update(StanceView { area_over: true, ..stance_view() });
    assert!(out.vanish && !out.heal);
    assert!(!s.active);
}

#[test]
fn divine_stance_cooldown_blocks_a_recast() {
    let mut s = DivineStanceSystem::new();
    assert!(s.begin_cast(SkillIconKind::DivineStance, FREE, true));
    s.update(StanceView { lock_over: true, area_over: true, ..stance_view() });
    assert!(!s.active && !s.locking && s.cooling);
    assert!(!s.begin_cast(SkillIconKind::DivineStance, FREE, true));
    s.update(StanceView { cooldown_over: true, ..stance_view() });
    assert!(!s.cooling);
    assert!(!s.begin_cast(SkillIconKind::DivineStance, LOCKED, true));
    assert!(s.begin_cast(SkillIconKind::DivineStance, FREE, true));
}

fn disc_view() -> DiscView {
    DiscView { hit_detected: false, out_of_range: false, glide_done: false, round_ticks: 0 }
}

fn toss(cooldown_over: bool, stance_over: bool, disc: DiscView) -> TossView {
    TossView { cooldown_over, stance_over, disc }
}

#[test]
fn shield_toss_throws_one_disc_per_cast() {
    let mut s = ShieldTossSystem::new();
    assert!(!s.begin_cast(SkillIconKind::ShieldToss, None));
    assert!(s.begin_cast(SkillIconKind::ShieldToss, FREE));
    assert_eq!(s.disc.map(|d| d.phase), Some(DiscPhase::Flying));
    assert!(s.stancing && s.cooling);
    assert!(!s.begin_cast(SkillIconKind::ShieldToss, FREE));

    let out = s.update(toss(true, true, DiscView { hit_detected: true, ..disc_view() }));
    assert!(out.release_lock);
    assert!(out.disc.unwrap().start_glide);
    assert!(!s.stancing && !s.cooling);
    // The disc is still out: no second throw.
    assert!(!s.begin_cast(SkillIconKind::ShieldToss, FREE));

    let out = s.update(toss(false, false, DiscView { glide_done: true, ..disc_view() }));
    assert_eq!(out.disc.unwrap().rounds, 1);
    let out = s.update(toss(false, false, DiscView { round_ticks: 10, ..disc_view() }));
    let step = out.disc.unwrap();
    assert_eq!(step.rounds, DISC_ROUNDS - 1);
    assert!(step.despawn);
    assert!(s.disc.is_none());
    let out = s.update(toss(false, false, disc_view()));
    assert!(out.disc.is_none() && !out.release_lock);
    assert!(s.begin_cast(SkillIconKind::ShieldToss, FREE));
}

#[test]
fn shield_toss_disc_out_of_range_vanishes() {
    let mut s = ShieldTossSystem::new();
    assert!(s.begin_cast(SkillIconKind::ShieldToss, FREE));
    let out = s.update(toss(false, false, DiscView { out_of_range: true, ..disc_view() }));
    assert!(out.disc.unwrap().despawn);
    assert!(s.disc.is_none());
    assert!(s.stancing);
}

fn sword_view() -> SwordView {
    SwordView {
        delay_over: false,
        appeared: false,
        hit: None,
        out_of_range: false,
        slice_done: false,
        fade_done: false,
    }
}

#[test]
fn swords_skill_summons_and_drops_vanished_swords() {
    let mut s = SwordsSkillSystem::new();
    assert!(!s.begin_cast(SkillIconKind::Sword, FREE, false));
    assert!(s.begin_cast(SkillIconKind::Sword, FREE, true));
    assert_eq!(s.swords.len(), SWORD_COUNT);
    assert!(s.swords.iter().all(|w| w.phase == SwordPhase::Waiting));
    assert!(s.locking);
    assert!(!s.begin_cast(SkillIconKind::Sword, FREE, true));

    let views = vec![SwordView { delay_over: true, ..sword_view() }, sword_view(), sword_view()];
    let out = s.update(&views, true);
    assert!(out.release_lock);
    assert_eq!(out.steps.len(), 3);
    assert_eq!(s.swords[0].phase, SwordPhase::Appearing);
    assert_eq!(s.swords[1].phase, SwordPhase::Waiting);

    // The first sword flies and strikes ram head 7; the others wait.
    let views = vec![SwordView { appeared: true, hit: Some(7), ..sword_view() }, sword_view(), sword_view()];
    let out = s.update(&views, true);
    assert!(!out.release_lock);
    assert_eq!(out.steps[0].strike, Some(7));
    assert_eq!(s.swords[0].phase, SwordPhase::Slicing);

    // It slices through and fades out in one frame; it leaves the play.
    let views = vec![SwordView { slice_done: true, fade_done: true, ..sword_view() }, sword_view(), sword_view()];
    let out = s.update(&views, false);
    assert!(out.steps[0].despawn);
    assert_eq!(s.swords.len(), 2);
}

#[test]
fn swords_skill_empty_play_drops_the_lock_silently() {
    let mut s = SwordsSkillSystem::new();
    assert!(s.begin_cast(SkillIconKind::Sword, FREE, true));
    // Every sword vanishes before the lock time ran out.
    let gone = SwordView { delay_over: true, out_of_range: true, ..sword_view() };
    let out = s.update(&vec![gone, gone, gone], false);
    assert!(!out.release_lock);
    assert!(s.swords.is_empty());
    assert!(s.locking);
    let out = s.update(&Vec::new(), true);
    assert!(!out.release_lock);
    assert!(!s.locking);
}

#[test]
fn sword_whose_delay_runs_out_starts_appearing_that_frame() {
    let mut s = SwordsSkillSystem::new();
    assert!(s.begin_cast(SkillIconKind::Sword, FREE, true));
    let views = vec![
        SwordView { delay_over: true, out_of_range: true, ..sword_view() },
        SwordView { delay_over: true, ..sword_view() },
        sword_view(),
    ];
    let out = s.update(&views, false);
    assert!(out.steps[0].despawn);
    assert!(!out.steps[1].despawn && !out.steps[1].moves);
    assert_eq!(s.swords.len(), 2);
    assert_eq!(s.swords[0].phase, SwordPhase::Appearing);
    assert_eq!(s.swords[1].phase, SwordPhase::Waiting);
}
