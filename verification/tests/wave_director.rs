use heroes_of_ironhold_core::scene::battle_test::sys_wave_director::{
    live_ram_heads, DirectorPhase, DirectorView, WaveCounts, WaveDirectorSystem,
};

fn view() -> DirectorView {
    DirectorView {
        gate_reached: true,
        in_rest_node: false,
        live_ram_heads: 0,
        spawn_ticks: 0,
        gap_over: false,
    }
}

#[test]
fn director_runs_a_wave() {
    let waves = vec![WaveCounts { spawn_count: 3, peon_squad: 2 }];
    let mut d = WaveDirectorSystem::new();
    let out = d.update(&waves, 5, DirectorView { gate_reached: false, ..view() });
    assert!(!out.start_burst);
    assert_eq!(d.phase, DirectorPhase::Waiting);
    let out = d.update(&waves, 5, view());
    assert!(out.start_burst);
    assert_eq!(d.burst_remaining, 3);
    let out = d.update(&waves, 5, DirectorView { spawn_ticks: 2, ..view() });
    assert_eq!(out.ram_heads, 2);
    assert!(!out.start_gap);
    let out = d.update(&waves, 5, DirectorView { spawn_ticks: 4, ..view() });
    assert_eq!(out.ram_heads, 1);
    assert!(out.start_gap);
    assert_eq!(d.phase, DirectorPhase::Gap);
    let out = d.update(&waves, 5, view());
    assert_eq!(out.peon_squad, Some(2));
    let out = d.update(&waves, 5, view());
    assert_eq!(out.peon_squad, None);
    d.update(&waves, 5, DirectorView { gap_over: true, ..view() });
    assert_eq!(d.wave_index, 1);
    assert_eq!(d.phase, DirectorPhase::Waiting);
    d.update(&waves, 5, view());
    assert!(d.done);
    let before = d;
    let out = d.update(&waves, 5, DirectorView { spawn_ticks: 9, ..view() });
    assert_eq!(d, before);
    assert_eq!(out.ram_heads, 0);
}

#[test]
fn director_holds_at_cap_and_in_rest_nodes() {
    let waves = vec![WaveCounts { spawn_count: 1, peon_squad: 0 }];
    let mut d = WaveDirectorSystem::new();
    d.update(&waves, 2, DirectorView { live_ram_heads: 2, ..view() });
    assert_eq!(d.phase, DirectorPhase::Waiting);
    d.update(&waves, 2, DirectorView { in_rest_node: true, ..view() });
    assert_eq!(d.phase, DirectorPhase::Waiting);
    d.update(&waves, 2, view());
    assert_eq!(d.phase, DirectorPhase::Burst);
    let out = d.update(&waves, 2, DirectorView { in_rest_node: true, spawn_ticks: 3, ..view() });
    assert_eq!(out.ram_heads, 0);
    let out = d.update(&waves, 2, DirectorView { spawn_ticks: 3, ..view() });
    assert_eq!(out.ram_heads, 1);
    let out = d.update(&waves, 2, view());
    assert_eq!(out.peon_squad, None);
}

#[test]
fn empty_schedule_finishes_at_once() {
    let mut d = WaveDirectorSystem::new();
    d.update(&Vec::new(), 3, view());
    assert!(d.done);
}

#[test]
fn live_ram_heads_counts_the_living() {
    assert_eq!(live_ram_heads(&vec![Some(10), Some(0), None, Some(-3), Some(1)]), 3);
    assert_eq!(live_ram_heads(&Vec::new()), 0);
}
