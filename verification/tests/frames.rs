use heroes_of_ironhold_core::scene::battle_test::sys_dash::{
    dash_frame, DashCharges, DashInput, DashTaps, TapDir,
};
use heroes_of_ironhold_core::scene::battle_test::sys_divine_stance::heal_amount;
use heroes_of_ironhold_core::scene::scene_one::components::{Anim, Blink};
use heroes_of_ironhold_core::scene::scene_one::sys_hurt::{HurtState, HurtSys, HurtView};

fn idle_input() -> DashInput {
    DashInput { attacking: false, dashing: false, tap: None, window_open: false, recovery_due: false }
}

#[test]
fn double_tap_dashes_and_recovery_refills() {
    let mut taps = DashTaps::new();
    let mut charges = DashCharges::full(2);
    let out = dash_frame(&mut taps, &mut charges, DashInput { tap: Some(TapDir::Left), ..idle_input() });
    assert!(out.armed && out.dash.is_none() && !out.recovering);
    let out = dash_frame(
        &mut taps,
        &mut charges,
        DashInput { tap: Some(TapDir::Left), window_open: true, ..idle_input() },
    );
    assert_eq!(out.dash, Some(TapDir::Left));
    assert_eq!(charges.charges, 1);
    assert!(out.recovering);
    let out = dash_frame(&mut taps, &mut charges, DashInput { recovery_due: true, ..idle_input() });
    assert!(out.recovered && !out.recovering);
    assert_eq!(charges.charges, 2);
}

#[test]
fn no_tap_is_read_while_attacking_or_dashing_or_empty() {
    let mut taps = DashTaps::new();
    let mut charges = DashCharges::full(1);
    let tap = DashInput { tap: Some(TapDir::Up), window_open: true, ..idle_input() };
    dash_frame(&mut taps, &mut charges, DashInput { attacking: true, ..tap });
    assert_eq!(taps.last_tap, None);
    dash_frame(&mut taps, &mut charges, DashInput { dashing: true, ..tap });
    assert_eq!(taps.last_tap, None);
    let mut empty = DashCharges { charges: 0, max_charges: 1 };
    let out = dash_frame(&mut taps, &mut empty, tap);
    assert!(out.dash.is_none() && !out.armed);
    assert!(out.recovering);
}

#[test]
fn dash_and_recovery_in_one_frame_keep_the_count() {
    let mut taps = DashTaps { last_tap: Some(TapDir::Right) };
    let mut charges = DashCharges::full(3);
    let out = dash_frame(
        &mut taps,
        &mut charges,
        DashInput { tap: Some(TapDir::Right), window_open: true, recovery_due: true, ..idle_input() },
    );
    assert_eq!(out.dash, Some(TapDir::Right));
    assert!(out.recovered);
    assert_eq!(charges.charges, 3);
    assert!(!out.recovering);
}

fn blink() -> Blink {
    Blink { active: false, blinks_left: 0, visible: true, blink_count: 2 }
}

fn view(touching_enemy: bool, hurt_done: bool, interval_over: bool) -> HurtView {
    HurtView { touching_enemy, hurt_done, interval_over }
}

#[test]
fn hit_hurt_then_blink_then_vulnerable_again() {
    let sys = HurtSys::new();
    let mut s = HurtState { hurt: false, anim: Anim::Run, blink: blink() };
    assert!(sys.update(&mut s, view(true, false, false)));
    assert!(s.hurt && s.anim == Anim::Hurt);
    // Hurt: touching again is no new hit.
    assert!(!sys.update(&mut s, view(true, false, false)));
    // The hurt animation ends: the blinking starts, hidden.
    assert!(!sys.update(&mut s, view(true, true, false)));
    assert!(!s.hurt && s.blink.active && !s.blink.visible && s.blink.blinks_left == 2);
    // Blinking: still no hit.
    assert!(!sys.update(&mut s, view(true, false, true)));
    assert!(s.blink.visible && s.blink.blinks_left == 1);
    sys.update(&mut s, view(false, false, true));
    assert!(!s.blink.visible);
    sys.update(&mut s, view(false, false, true));
    assert!(!s.blink.active && s.blink.visible);
    assert!(sys.update(&mut s, view(true, false, false)));
}

#[test]
fn heal_at_or_above_max_needs_no_subtraction() {
    assert_eq!(heal_amount(i32::MAX, i32::MIN, 5), None);
    assert_eq!(heal_amount(0, -5, 5), None);
}
