//! The wave director: waits for the knight to reach each wave's gate, fires
//! the wave's burst of ram heads, rallies the peon squad, then rests before
//! the next wave. Distances and timers are measured by the caller, which
//! reports them as the observations below.

use vstd::prelude::*;

verus! {

/// How many ram heads a wave sends and how many peons rally after it.
#[derive(Clone, Copy, PartialEq, Eq, Debug, Structural)]
pub struct WaveCounts {
    pub spawn_count: usize,
    pub peon_squad: usize,
}

/// Where the director is within the current wave.
#[derive(Clone, Copy, PartialEq, Eq, Debug, Structural)]
pub enum DirectorPhase {
    /// Waiting for the knight to reach the wave's gate.
    Waiting,
    /// Firing the wave's burst of ram heads.
    Burst,
    /// Resting in the lull after the burst.
    Gap,
}

/// What the caller observed this frame.
#[derive(Clone, Copy, PartialEq, Eq, Debug, Structural)]
pub struct DirectorView {
    /// The knight is at or past the current wave's gate.
    pub gate_reached: bool,
    /// The knight stands inside a rest node.
    pub in_rest_node: bool,
    /// Ram heads still alive.
    pub live_ram_heads: usize,
    /// Burst spawns that came due on the burst timer this frame.
    pub spawn_ticks: usize,
    /// The gap timer ran out this frame.
    pub gap_over: bool,
}

/// What the director asks of the caller this frame.
#[derive(Clone, Copy, PartialEq, Eq, Debug, Structural)]
pub struct DirectorOutput {
    /// A burst starts: move the spawn zones to the knight, zero the burst timer.
    pub start_burst: bool,
    /// Ram heads to spawn, one event each.
    pub ram_heads: usize,
    /// The burst is over: start the gap timer.
    pub start_gap: bool,
    /// Peons to rally, when a squad is due.
    pub peon_squad: Option<usize>,
}

/// The discrete state of the wave director.
#[derive(Clone, Copy, PartialEq, Eq, Debug, Structural)]
pub struct WaveDirectorSystem {
    pub phase: DirectorPhase,
    pub wave_index: usize,
    pub burst_remaining: usize,
    pub peon_rallied: bool,
    pub done: bool,
}

pub open spec fn quiet() -> DirectorOutput {
    DirectorOutput { start_burst: false, ram_heads: 0, start_gap: false, peon_squad: None }
}

pub open spec fn min_usize(a: usize, b: usize) -> usize {
    if a <= b { a } else { b }
}

impl WaveDirectorSystem {
    /// The director starts before the first wave.
    pub fn new() -> (d: WaveDirectorSystem)
        ensures
            d.phase == DirectorPhase::Waiting,
            d.wave_index == 0,
            d.burst_remaining == 0,
            !d.peon_rallied,
            !d.done,
    {
        WaveDirectorSystem {
            phase: DirectorPhase::Waiting,
            wave_index: 0,
            burst_remaining: 0,
            peon_rallied: false,
            done: false,
        }
    }

    /// The director's transition table: the state and the requests after one
    /// frame with the knight present.
    pub open spec fn next(self, waves: Seq<WaveCounts>, max_alive: usize, view: DirectorView) -> (
        WaveDirectorSystem,
        DirectorOutput,
    ) {
        if self.done {
            (self, quiet())
        } else if self.wave_index >= waves.len() {
            (WaveDirectorSystem { done: true, ..self }, quiet())
        } else {
            let wave = waves[self.wave_index as int];
            match self.phase {
                DirectorPhase::Waiting => if view.gate_reached && !view.in_rest_node
                    && view.live_ram_heads < max_alive {
                    (
                        WaveDirectorSystem {
                            phase: DirectorPhase::Burst,
                            burst_remaining: wave.spawn_count,
                            ..self
                        },
                        DirectorOutput { start_burst: true, ..quiet() },
                    )
                } else {
                    (self, quiet())
                },
                DirectorPhase::Burst => if view.in_rest_node {
                    (self, quiet())
                } else {
                    let fired = min_usize(view.spawn_ticks, self.burst_remaining);
                    let left = (self.burst_remaining - fired) as usize;
                    if left == 0 {
                        (
                            WaveDirectorSystem {
                                phase: DirectorPhase::Gap,
                                burst_remaining: 0,
                                peon_rallied: false,
                                ..self
                            },
                            DirectorOutput { ram_heads: fired, start_gap: true, ..quiet() },
                        )
                    } else {
                        (
                            WaveDirectorSystem { burst_remaining: left, ..self },
                            DirectorOutput { ram_heads: fired, ..quiet() },
                        )
                    }
                },
                DirectorPhase::Gap => {
                    let rally = !self.peon_rallied && wave.peon_squad > 0;
                    let squad = if rally {
                        Some(wave.peon_squad)
                    } else {
                        None
                    };
                    let rallied = self.peon_rallied || rally;
                    if view.gap_over {
                        (
                            WaveDirectorSystem {
                                phase: DirectorPhase::Waiting,
                                wave_index: (self.wave_index + 1) as usize,
                                peon_rallied: rallied,
                                ..self
                            },
                            DirectorOutput { peon_squad: squad, ..quiet() },
                        )
                    } else {
                        (
                            WaveDirectorSystem { peon_rallied: rallied, ..self },
                            DirectorOutput { peon_squad: squad, ..quiet() },
                        )
                    }
                },
            }
        }
    }

    /// One frame of the director, with the knight present.
    pub fn update(&mut self, waves: &Vec<WaveCounts>, max_alive: usize, view: DirectorView) -> (out:
        DirectorOutput)
        ensures
            (*final(self), out) == old(self).next(waves@, max_alive, view),
    {
        let mut out = DirectorOutput {
            start_burst: false,
            ram_heads: 0,
            start_gap: false,
            peon_squad: None,
        };
        if self.done {
            return out;
        }
        if self.wave_index >= waves.len() {
            self.done = true;
            return out;
        }
        let wave = waves[self.wave_index];
        match self.phase {
            DirectorPhase::Waiting => {
                if !view.gate_reached {
                    return out;
                }
                if view.in_rest_node {
                    return out;
                }
                if view.live_ram_heads >= max_alive {
                    return out;
                }
                self.burst_remaining = wave.spawn_count;
                self.phase = DirectorPhase::Burst;
                out.start_burst = true;
            },
            DirectorPhase::Burst => {
                if view.in_rest_node {
                    return out;
                }
                let fired = if view.spawn_ticks <= self.burst_remaining {
                    view.spawn_ticks
                } else {
                    self.burst_remaining
                };
                self.burst_remaining = self.burst_remaining - fired;
                out.ram_heads = fired;
                if self.burst_remaining == 0 {
                    self.peon_rallied = false;
                    self.phase = DirectorPhase::Gap;
                    out.start_gap = true;
                }
            },
            DirectorPhase::Gap => {
                if !self.peon_rallied && wave.peon_squad > 0 {
                    out.peon_squad = Some(wave.peon_squad);
                    self.peon_rallied = true;
                }
                if view.gap_over {
                    self.wave_index = self.wave_index + 1;
                    self.phase = DirectorPhase::Waiting;
                }
            },
        }
        out
    }
}

/// Living ram heads among `hps` (each ram's hit points, `None` when it has
/// no stats, which counts as alive).
pub open spec fn alive_count(hps: Seq<Option<i32>>) -> nat
    decreases hps.len(),
{
    if hps.len() == 0 {
        0
    } else {
        alive_count(hps.drop_last()) + match hps.last() {
            Some(hp) => if hp > 0 {
                1nat
            } else {
                0nat
            },
            None => 1nat,
        }
    }
}

/// The number of ram heads still alive.
pub fn live_ram_heads(hps: &Vec<Option<i32>>) -> (n: usize)
    ensures
        n == alive_count(hps@),
{
    let mut n: usize = 0;
    let mut i: usize = 0;
    while i < hps.len()
        invariant
            i <= hps.len(),
            n == alive_count(hps@.take(i as int)),
            n <= i,
        decreases hps.len() - i,
    {
        assert(hps@.take(i + 1).drop_last() =~= hps@.take(i as int));
        let alive = match hps[i] {
            Some(hp) => hp > 0,
            None => true,
        };
        if alive {
            n = n + 1;
        }
        i = i + 1;
    }
    assert(hps@.take(hps.len() as int) =~= hps@);
    n
}


/// Once every wave has been run the director is done, and a done director
/// never does anything again.
pub proof fn lemma_done_is_final(
    d: WaveDirectorSystem,
    waves: Seq<WaveCounts>,
    max_alive: usize,
    view: DirectorView,
)
    requires
        d.done,
    ensures
        d.next(waves, max_alive, view) == (d, quiet()),
{
}

/// A burst spawns exactly its wave's ram heads: every frame of the burst
/// spawns as many as it takes off the remaining count, so over the burst
/// the spawns add up to the wave's `spawn_count`.
pub proof fn lemma_burst_conserves_spawns(
    d: WaveDirectorSystem,
    waves: Seq<WaveCounts>,
    max_alive: usize,
    view: DirectorView,
)
    requires
        !d.done,
        d.wave_index < waves.len(),
        d.phase == DirectorPhase::Burst,
    ensures
        d.next(waves, max_alive, view).1.ram_heads + d.next(waves, max_alive, view).0.burst_remaining
            == d.burst_remaining,
{
}

/// Starting a burst loads the wave's spawn count, and a burst with spawns
/// left never leaves the burst phase.
pub proof fn lemma_burst_loads_wave(
    d: WaveDirectorSystem,
    waves: Seq<WaveCounts>,
    max_alive: usize,
    view: DirectorView,
)
    requires
        !d.done,
        d.wave_index < waves.len(),
        d.phase == DirectorPhase::Waiting,
        d.next(waves, max_alive, view).1.start_burst,
    ensures
        d.next(waves, max_alive, view).0.burst_remaining == waves[d.wave_index as int].spawn_count,
        d.next(waves, max_alive, view).0.phase == DirectorPhase::Burst,
{
}

/// The peon squad rallies at most once per wave: right after a rally the
/// director cannot rally again.
pub proof fn lemma_rally_once(
    d: WaveDirectorSystem,
    waves: Seq<WaveCounts>,
    max_alive: usize,
    v1: DirectorView,
    v2: DirectorView,
)
    requires
        d.next(waves, max_alive, v1).1.peon_squad is Some,
    ensures
        d.next(waves, max_alive, v1).0.peon_rallied,
        d.next(waves, max_alive, v1).0.next(waves, max_alive, v2).1.peon_squad is None,
{
}

/// The director never goes back to an earlier wave and never skips one.
pub proof fn lemma_progress(
    d: WaveDirectorSystem,
    waves: Seq<WaveCounts>,
    max_alive: usize,
    view: DirectorView,
)
    requires
        waves.len() <= usize::MAX,
    ensures
        d.next(waves, max_alive, view).0.wave_index >= d.wave_index,
        d.next(waves, max_alive, view).0.wave_index <= d.wave_index + 1,
{
}

/// Ram heads spawned over a run of frames, up to and including the frame
/// that ends the burst.
pub open spec fn burst_spawns(
    d: WaveDirectorSystem,
    waves: Seq<WaveCounts>,
    max_alive: usize,
    views: Seq<DirectorView>,
) -> nat
    decreases views.len(),
{
    if views.len() == 0 {
        0
    } else {
        let (d2, out) = d.next(waves, max_alive, views[0]);
        out.ram_heads as nat + if out.start_gap {
            0nat
        } else {
            burst_spawns(d2, waves, max_alive, views.drop_first())
        }
    }
}

/// Whether the burst ends (the gap starts) within a run of frames.
pub open spec fn burst_ends(
    d: WaveDirectorSystem,
    waves: Seq<WaveCounts>,
    max_alive: usize,
    views: Seq<DirectorView>,
) -> bool
    decreases views.len(),
{
    if views.len() == 0 {
        false
    } else {
        let (d2, out) = d.next(waves, max_alive, views[0]);
        out.start_gap || burst_ends(d2, waves, max_alive, views.drop_first())
    }
}

/// A running burst spawns exactly the ram heads it has left: over any run of
/// frames in which the burst ends, the spawns up to its end add up to
/// `burst_remaining`, however the spawn ticks and rest nodes fall.
pub proof fn lemma_burst_spawns_what_is_left(
    d: WaveDirectorSystem,
    waves: Seq<WaveCounts>,
    max_alive: usize,
    views: Seq<DirectorView>,
)
    requires
        !d.done,
        d.wave_index < waves.len(),
        d.phase == DirectorPhase::Burst,
        burst_ends(d, waves, max_alive, views),
    ensures
        burst_spawns(d, waves, max_alive, views) == d.burst_remaining,
    decreases views.len(),
{
    let (d2, out) = d.next(waves, max_alive, views[0]);
    if !out.start_gap {
        lemma_burst_spawns_what_is_left(d2, waves, max_alive, views.drop_first());
    }
}

/// A wave's burst spawns exactly the wave's `spawn_count` ram heads: from
/// the frame that starts it up to the frame that ends it.
pub proof fn lemma_burst_spawns_wave(
    d: WaveDirectorSystem,
    waves: Seq<WaveCounts>,
    max_alive: usize,
    start: DirectorView,
    views: Seq<DirectorView>,
)
    requires
        !d.done,
        d.wave_index < waves.len(),
        d.phase == DirectorPhase::Waiting,
        d.next(waves, max_alive, start).1.start_burst,
        burst_ends(d.next(waves, max_alive, start).0, waves, max_alive, views),
    ensures
        burst_spawns(d.next(waves, max_alive, start).0, waves, max_alive, views)
            == waves[d.wave_index as int].spawn_count,
{
    lemma_burst_spawns_what_is_left(d.next(waves, max_alive, start).0, waves, max_alive, views);
}

/// Every wave's squad rallies: the frame that ends a burst leaves the
/// director in its gap with no squad rallied yet, so for a wave with a squad
/// the very next frame rallies that wave's squad, whatever was rallied for
/// earlier waves.
pub proof fn lemma_each_wave_rallies(
    d: WaveDirectorSystem,
    waves: Seq<WaveCounts>,
    max_alive: usize,
    v1: DirectorView,
    v2: DirectorView,
)
    requires
        d.next(waves, max_alive, v1).1.start_gap,
    ensures
        !d.done,
        d.wave_index < waves.len(),
        d.next(waves, max_alive, v1).0.phase == DirectorPhase::Gap,
        !d.next(waves, max_alive, v1).0.peon_rallied,
        d.next(waves, max_alive, v1).0.wave_index == d.wave_index,
        waves[d.wave_index as int].peon_squad > 0 ==> d.next(waves, max_alive, v1).0.next(
            waves,
            max_alive,
            v2,
        ).1.peon_squad == Some(waves[d.wave_index as int].peon_squad),
{
}

/// How the director moves through a wave: a waiting director starts the
/// wave's burst exactly when the knight stands at or past the wave's start
/// line, not in a rest node, and fewer ram heads than the cap are alive; a
/// burst pauses (spawns
/// nothing) while the knight rests and otherwise spawns the ticks that came
/// due, up to what is left, ending when nothing is left; a gap moves on to
/// the next wave exactly when its timer runs out; past the last wave the
/// director is done and asks for nothing.
pub proof fn lemma_wave_flow(
    d: WaveDirectorSystem,
    waves: Seq<WaveCounts>,
    max_alive: usize,
    view: DirectorView,
)
    requires
        !d.done,
        waves.len() <= usize::MAX,
    ensures
        ({
            let (d2, out) = d.next(waves, max_alive, view);
            &&& d.wave_index >= waves.len() ==> d2.done && out == quiet()
            &&& (d.wave_index < waves.len() && d.phase == DirectorPhase::Waiting) ==> (out.start_burst
                <==> (view.gate_reached && !view.in_rest_node && view.live_ram_heads < max_alive))
            &&& (d.wave_index < waves.len() && d.phase == DirectorPhase::Burst) ==> {
                &&& view.in_rest_node ==> out.ram_heads == 0 && d2 == d
                &&& !view.in_rest_node ==> out.ram_heads == min_usize(view.spawn_ticks, d.burst_remaining)
                &&& out.start_gap <==> (!view.in_rest_node && view.spawn_ticks >= d.burst_remaining)
            }
            &&& (d.wave_index < waves.len() && d.phase == DirectorPhase::Gap) ==> {
                &&& out.ram_heads == 0
                &&& (d2.wave_index == d.wave_index + 1 <==> view.gap_over)
                &&& view.gap_over ==> d2.phase == DirectorPhase::Waiting
            }
            &&& out.start_burst ==> d.phase == DirectorPhase::Waiting
            &&& out.peon_squad is Some ==> d.phase == DirectorPhase::Gap && !d.peon_rallied
        }),
{
}

} // verus!
