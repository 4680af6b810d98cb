use heroes_of_ironhold_core::entity::knight::{EffectKind, Facing};
use heroes_of_ironhold_core::scene::asset_preview::sys_animation::AnimationUpdateSystem;
use heroes_of_ironhold_core::scene::asset_preview::sys_attack_effects::AttackEffectSystem;
use heroes_of_ironhold_core::scene::asset_preview::sys_offsets::{
    FramePartFlags, OffsetUpdateSystem,
};
use heroes_of_ironhold_core::scene::battle_test::sys_attack_hit::{AttackEvent, AttackHitSystem};
use heroes_of_ironhold_core::scene::battle_test::sys_enemy_ai::{EnemyAiSystem, EnemyFrame};
use heroes_of_ironhold_core::scene::battle_test::sys_facing_lock::KnightFacingLockSystem;
use heroes_of_ironhold_core::scene::battle_test::sys_knight_attack_hit::KnightAttackHitSystem;
use heroes_of_ironhold_core::scene::opening::AnimationSys as OpeningAnimation;
use heroes_of_ironhold_core::scene::scene_one::components::{Anim, Blink, EnemyAnim};
use heroes_of_ironhold_core::scene::scene_one::sys_animation::{loop_frame, once_frame};
use heroes_of_ironhold_core::scene::scene_one::sys_enemy::enemy_anim;
use heroes_of_ironhold_core::scene::scene_one::sys_hurt::vulnerable;
use heroes_of_ironhold_core::scene::scene_one::sys_player::player_anim;
use heroes_of_ironhold_core::scene::scene_one::{AnimationSys, EnemyAnimationSys};

#[test]
fn looping_and_once_frames() {
    assert_eq!(loop_frame(7, 3), 1);
    assert_eq!(loop_frame(0, 5), 0);
    assert_eq!(once_frame(2, 4), (2, false));
    assert_eq!(once_frame(4, 4), (3, true));
    assert_eq!(once_frame(9, 1), (0, true));
    assert_eq!(OpeningAnimation::new().frame_at(11, 4), 3);
}

#[test]
fn player_animation_change_detection() {
    let mut a = AnimationSys::new();
    assert!(!a.note_anim(Anim::Idle));
    assert!(a.note_anim(Anim::Run));
    assert!(!a.note_anim(Anim::Run));
    assert!(a.note_anim(Anim::Idle));
}

#[test]
fn enemy_animation_change_detection_per_enemy() {
    let mut e = EnemyAnimationSys::new();
    assert!(e.note_anim(1, EnemyAnim::Idle));
    assert!(!e.note_anim(1, EnemyAnim::Idle));
    assert!(e.note_anim(2, EnemyAnim::Idle));
    assert!(e.note_anim(1, EnemyAnim::Walk));
    assert!(!e.note_anim(2, EnemyAnim::Idle));
}

#[test]
fn animation_choices() {
    assert_eq!(player_anim(true, false, true), Anim::Hurt);
    assert_eq!(player_anim(false, false, true), Anim::Jump);
    assert_eq!(player_anim(false, true, true), Anim::Run);
    assert_eq!(player_anim(false, true, false), Anim::Idle);
    assert_eq!(enemy_anim(false, true), EnemyAnim::Fall);
    assert_eq!(enemy_anim(true, true), EnemyAnim::Walk);
    assert_eq!(enemy_anim(true, false), EnemyAnim::Idle);
    assert!(vulnerable(false, false));
    assert!(!vulnerable(true, false));
    assert!(!vulnerable(false, true));
}

#[test]
fn blink_runs_for_twice_the_count_minus_one() {
    let mut b = Blink { active: false, blinks_left: 0, visible: true, blink_count: 3 };
    b.start();
    assert!(b.active && !b.visible && b.blinks_left == 3);
    let mut toggles = 0;
    while b.active {
        b.toggle();
        toggles += 1;
    }
    assert_eq!(toggles, 5);
    assert!(b.visible);
    assert_eq!(b.blinks_left, 0);
}

#[test]
fn attack_event_fires_once_per_swing() {
    let mut h = AttackHitSystem::new();
    assert_eq!(h.update(1, true, vec![]), None);
    assert_eq!(h.update(1, true, vec![5]), None);
    h.update(1, false, vec![5]);
    assert_eq!(h.update(1, true, vec![5, 6]), Some(AttackEvent { attacker: 1, targets: vec![5, 6] }));
    assert_eq!(h.update(1, true, vec![5, 6]), None);
    let mut k = KnightAttackHitSystem::new();
    assert_eq!(k.update(2, true, vec![9]), Some(AttackEvent { attacker: 2, targets: vec![9] }));
    assert_eq!(k.update(2, true, vec![9]), None);
}

#[test]
fn enemy_ai_frames() {
    let mut e = EnemyAiSystem::new();
    assert_eq!(e.next_frame(false, 4, 3), EnemyFrame::Walk(0));
    assert_eq!(e.next_frame(true, 4, 3), EnemyFrame::Walk(1));
    assert!(e.engage(true));
    assert_eq!(e.walk_step, 0);
    assert!(!e.engage(true));
    assert_eq!(e.next_frame(true, 4, 3), EnemyFrame::Attack(1));
    assert_eq!(e.next_frame(true, 4, 3), EnemyFrame::Attack(2));
    assert_eq!(e.next_frame(true, 4, 3), EnemyFrame::Attack(0));
}

#[test]
fn preview_animation_clock() {
    let s = AnimationUpdateSystem::new();
    assert_eq!(s.advance(2, 3, true), 0);
    assert_eq!(s.advance(1, 3, true), 2);
    assert_eq!(s.advance(1, 3, false), 1);
}

#[test]
fn attack_effects_trigger_on_new_pose() {
    let mut fx = AttackEffectSystem::new();
    assert_eq!(fx.triggered(3, 3, 4), Some(EffectKind::Thrust));
    assert_eq!(fx.triggered(3, 3, 4), None);
    assert_eq!(fx.triggered(4, 3, 4), Some(EffectKind::Slash));
    assert_eq!(fx.triggered(0, 3, 4), None);
    assert_eq!(fx.triggered(4, 3, 4), Some(EffectKind::Slash));
}

#[test]
fn part_pose_mirrors_and_wraps_sword_frame() {
    let o = OffsetUpdateSystem::new();
    let flags = FramePartFlags { shield_visible: true, sword_visible: false, sword_frame: 7 };
    let p = o.pose(flags, Facing::Left, 3);
    assert!(p.mirror);
    assert!(p.shield_visible);
    assert!(!p.sword_visible);
    assert_eq!(p.sword_frame, 1);
    assert!(!o.pose(flags, Facing::Right, 3).mirror);
}

#[test]
fn facing_lock_holds_strike_facing() {
    let mut l = KnightFacingLockSystem::new();
    let out = l.update(Some(0), 3, 4, Facing::Right, false);
    assert!(!out.lock_started);
    assert_eq!(l.locked_facing, Some(Facing::Right));
    let out = l.update(Some(3), 3, 4, Facing::Right, false);
    assert!(out.lock_started);
    let out = l.update(Some(3), 3, 4, Facing::Left, true);
    assert!(!out.lock_started);
    assert_eq!(out.relock, Some(Facing::Right));
    let out = l.update(Some(3), 3, 4, Facing::Left, false);
    assert_eq!(out.relock, None);
    assert_eq!(l.locked_facing, Some(Facing::Left));
}
