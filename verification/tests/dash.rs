use heroes_of_ironhold_core::manager::{SceneStage, SceneSwitch};
use heroes_of_ironhold_core::scene::asset_preview::sys_player_dash::taps_read;
use heroes_of_ironhold_core::scene::battle_test::sys_dash::{
    first_tap, outfit_dominant_color, DashCharges, DashTaps, TapDir, TapOutcome,
};
use heroes_of_ironhold_core::scene::factory::SceneId;

#[test]
fn double_tap_dashes() {
    let mut t = DashTaps::new();
    assert_eq!(t.tap(TapDir::Left, false), TapOutcome::Armed(TapDir::Left));
    assert_eq!(t.tap(TapDir::Left, true), TapOutcome::Dash(TapDir::Left));
    assert_eq!(t.last_tap, None);
    assert_eq!(t.tap(TapDir::Left, true), TapOutcome::Armed(TapDir::Left));
    assert_eq!(t.tap(TapDir::Up, true), TapOutcome::Armed(TapDir::Up));
    assert_eq!(t.tap(TapDir::Up, false), TapOutcome::Armed(TapDir::Up));
}

#[test]
fn first_tap_order() {
    assert_eq!(first_tap(true, true, true, true), Some(TapDir::Left));
    assert_eq!(first_tap(false, true, true, false), Some(TapDir::Right));
    assert_eq!(first_tap(false, false, false, true), Some(TapDir::Down));
    assert_eq!(first_tap(false, false, false, false), None);
    assert!(taps_read(false, false));
    assert!(!taps_read(true, false));
    assert!(!taps_read(false, true));
}

#[test]
fn dash_charges_spend_and_recover() {
    let mut c = DashCharges::full(2);
    assert!(c.can_dash(false, false));
    assert!(!c.can_dash(true, false));
    assert!(!c.recovering());
    c.spend();
    c.spend();
    assert!(!c.can_dash(false, false));
    assert!(c.recovering());
    assert!(c.recover_one());
    assert!(!c.recover_one());
    assert_eq!(c.charges, 2);
}

fn image(w: usize, h: usize, fill: [u8; 4]) -> Vec<[u8; 4]> {
    vec![fill; w * h]
}

#[test]
fn dominant_color_of_uniform_center() {
    let data = image(8, 8, [200, 100, 50, 255]);
    assert_eq!(outfit_dominant_color(&data, 8, 8), (200, 96, 48));
}

#[test]
fn dominant_color_skips_edges_transparent_and_dark() {
    let mut data = image(8, 8, [0, 0, 255, 255]);
    // Central half: rows and columns 2..6.
    for y in 2..6 {
        for x in 2..6 {
            data[y * 8 + x] = [255, 0, 0, 255];
        }
    }
    data[2 * 8 + 2] = [0, 255, 0, 255];
    data[2 * 8 + 3] = [0, 255, 0, 255];
    data[3 * 8 + 2] = [0, 255, 0, 10];
    data[3 * 8 + 3] = [10, 10, 10, 255];
    assert_eq!(outfit_dominant_color(&data, 8, 8), (248, 0, 0));
}

#[test]
fn dominant_color_defaults_to_white() {
    let data = image(4, 4, [5, 5, 5, 255]);
    assert_eq!(outfit_dominant_color(&data, 4, 4), (248, 248, 248));
    assert_eq!(outfit_dominant_color(&[], 0, 0), (248, 248, 248));
}

#[test]
fn scene_switch_flow() {
    let mut s = SceneSwitch::new();
    assert!(!s.settle(true, true));
    assert_eq!(s.request(None), None);
    assert_eq!(s.request(Some(SceneId::BattleTest)), Some(SceneId::BattleTest));
    assert_eq!(s.stage, SceneStage::Transition);
    assert_eq!(s.request(Some(SceneId::AssetPreview)), None);
    assert!(!s.settle(true, false));
    assert!(!s.settle(false, true));
    assert!(s.settle(true, true));
    assert_eq!(s.stage, SceneStage::Idle);
}
