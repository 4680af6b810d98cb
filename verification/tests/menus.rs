use heroes_of_ironhold_core::scene::asset_preview::scene::{
    cycle_index, AssetPreviewScene, FocusMode, PreviewInput,
};
use heroes_of_ironhold_core::scene::factory::{ChangeSceneEvent, SceneId};
use heroes_of_ironhold_core::scene::menu::MenuInputSystem;
use heroes_of_ironhold_core::scene::opening::sys_menu::{ClockAction, MenuInput};
use heroes_of_ironhold_core::scene::opening::{MenuState, MenuSys, Phase};

fn menu_keys() -> MenuInput {
    MenuInput { enter: false, up: false, down: false, time_up: false }
}

#[test]
fn opening_menu_flow_to_scene_one() {
    let sys = MenuSys::new();
    let mut st = MenuState::new(2);
    let out = sys.update(&mut st, menu_keys());
    assert_eq!(out.clock, ClockAction::Keep);
    assert_eq!(st.phase, Phase::Attract);
    let out = sys.update(&mut st, MenuInput { enter: true, ..menu_keys() });
    assert_eq!(st.phase, Phase::Transition);
    assert_eq!(out.clock, ClockAction::Restart);
    sys.update(&mut st, MenuInput { time_up: true, ..menu_keys() });
    assert_eq!(st.phase, Phase::Menu);
    sys.update(&mut st, MenuInput { enter: true, ..menu_keys() });
    assert_eq!(st.phase, Phase::Selected);
    let out = sys.update(&mut st, MenuInput { time_up: true, ..menu_keys() });
    assert_eq!(out.event, Some(ChangeSceneEvent(SceneId::SceneOne)));
}

#[test]
fn opening_menu_focus_moves_without_wrapping() {
    let sys = MenuSys::new();
    let mut st = MenuState { phase: Phase::Menu, focus: 0, item_count: 3 };
    sys.update(&mut st, MenuInput { up: true, ..menu_keys() });
    assert_eq!(st.focus, 0);
    sys.update(&mut st, MenuInput { down: true, ..menu_keys() });
    sys.update(&mut st, MenuInput { down: true, ..menu_keys() });
    sys.update(&mut st, MenuInput { down: true, ..menu_keys() });
    assert_eq!(st.focus, 2);
    sys.update(&mut st, MenuInput { enter: true, ..menu_keys() });
    let out = sys.update(&mut st, MenuInput { time_up: true, ..menu_keys() });
    assert_eq!(out.clock, ClockAction::SetOne);
    assert_eq!(out.event, None);
    assert_eq!(st.phase, Phase::Menu);
}

#[test]
fn single_item_menu_ignores_arrows() {
    let sys = MenuSys::new();
    let mut st = MenuState { phase: Phase::Menu, focus: 0, item_count: 1 };
    sys.update(&mut st, MenuInput { down: true, ..menu_keys() });
    assert_eq!(st.focus, 0);
}

#[test]
fn title_menu_wraps_and_starts_story() {
    let mut m = MenuInputSystem::new();
    assert_eq!(m.update(true, false, false), None);
    assert_eq!(m.selected, 3);
    assert_eq!(m.update(false, true, false), None);
    assert_eq!(m.selected, 0);
    assert_eq!(m.update(false, false, true), Some(ChangeSceneEvent(SceneId::BattleTest)));
    m.update(false, true, false);
    assert_eq!(m.update(false, false, true), None);
}

#[test]
fn cycle_index_wraps_both_ways() {
    assert_eq!(cycle_index(0, -1, 3), 2);
    assert_eq!(cycle_index(2, 1, 3), 0);
    assert_eq!(cycle_index(1, 1, 3), 2);
    assert_eq!(cycle_index(1, -7, 3), 0);
    assert_eq!(cycle_index(2, 5, 3), 1);
    assert_eq!(cycle_index(0, 0, 1), 0);
}

fn preview_keys() -> PreviewInput {
    PreviewInput { jump: false, up: false, down: false, left: false, right: false }
}

#[test]
fn asset_preview_boxes_cycle_variants() {
    let mut p = AssetPreviewScene::new();
    assert_eq!(p.focus_mode, FocusMode::Boxes);
    let out = p.update(PreviewInput { left: true, ..preview_keys() });
    assert!(out.rebuild);
    assert_eq!(p.knight_variant, 2);
    p.update(PreviewInput { down: true, right: true, ..preview_keys() });
    assert_eq!(p.focus, 1);
    assert_eq!(p.shield_variant, 1);
    p.update(PreviewInput { up: true, ..preview_keys() });
    p.update(PreviewInput { up: true, right: true, ..preview_keys() });
    assert_eq!(p.focus, 2);
    assert_eq!(p.sword_variant, 1);
}

#[test]
fn asset_preview_jump_switches_focus_mode() {
    let mut p = AssetPreviewScene::new();
    let out = p.update(PreviewInput { jump: true, ..preview_keys() });
    assert_eq!(p.focus_mode, FocusMode::Knight);
    assert!(out.drive_knight);
    assert!(!out.set_idle);
    let out = p.update(PreviewInput { left: true, ..preview_keys() });
    assert!(!out.rebuild);
    assert_eq!(p.knight_variant, 0);
    let out = p.update(PreviewInput { jump: true, ..preview_keys() });
    assert!(out.set_idle);
    assert_eq!(p.focus_mode, FocusMode::Boxes);
    assert_eq!(p.focus, 0);
}
