//! Peon warband rules: damage mitigation, the attack state machine and the
//! formation slots that keep the squad in order.

use vstd::prelude::*;

verus! {

/// Raw damage reduced by armor, but a hit always deals at least one point.
pub fn mitigated_damage(raw: i32, armor: i32) -> (d: i32)
    requires
        i32::MIN <= raw - armor <= i32::MAX,
    ensures
        d == if raw - armor > 1 { raw - armor } else { 1 },
{
    let diff: i32 = raw - armor;
    if diff > 1 { diff } else { 1 }
}

} // verus!

verus! {

/// Whether `s` is in non-decreasing order.
pub open spec fn sorted(s: Seq<u64>) -> bool {
    forall|i: int, j: int| 0 <= i <= j < s.len() ==> s[i] <= s[j]
}

/// The squad's formation order: the peon ids sorted ascending, so each peon
/// keeps the same slot from frame to frame.
pub fn formation_order(ids: &Vec<u64>) -> (order: Vec<u64>)
    ensures
        sorted(order@),
        order@.to_multiset() == ids@.to_multiset(),
{
    broadcast use vstd::seq_lib::group_to_multiset_ensures;

    let mut order: Vec<u64> = Vec::new();
    let mut i: usize = 0;
    while i < ids.len()
        invariant
            i <= ids.len(),
            sorted(order@),
            order@.to_multiset() == ids@.take(i as int).to_multiset(),
        decreases ids.len() - i,
    {
        let v = ids[i];
        let mut pos: usize = 0;
        while pos < order.len() && order[pos] <= v
            invariant
                pos <= order.len(),
                forall|j: int| 0 <= j < pos ==> order@[j] <= v,
            decreases order.len() - pos,
        {
            pos = pos + 1;
        }
        proof {
            assert(pos < order.len() ==> order@[pos as int] > v);
            vstd::seq_lib::to_multiset_insert(order@, pos as int, v);
            assert(ids@.take(i + 1) =~= ids@.take(i as int).push(v));
            vstd::seq_lib::to_multiset_build(ids@.take(i as int), v);
        }
        let ghost prev = order@;
        order.insert(pos, v);
        proof {
            assert(order@ =~= prev.insert(pos as int, v));
            assert forall|a: int, b: int| 0 <= a <= b < order@.len() implies order@[a] <= order@[b] by {
                if a < pos && b > pos {
                    assert(order@[b] == prev[b - 1]);
                } else if a == pos && b > pos {
                    assert(order@[b] == prev[b - 1]);
                    assert(prev[pos as int] > v);
                    assert(prev[pos as int] <= prev[b - 1]);
                } else if a > pos {
                    assert(order@[a] == prev[a - 1]);
                    assert(order@[b] == prev[b - 1]);
                }
            }
        }
        i = i + 1;
    }
    proof {
        assert(ids@.take(ids.len() as int) =~= ids@);
    }
    order
}

/// A peon's slot in the formation: where its id sits in the sorted order,
/// or `None` when it is not part of the squad.
pub fn slot_index(order: &Vec<u64>, id: u64) -> (slot: Option<usize>)
    requires
        sorted(order@),
    ensures
        match slot {
            Some(i) => i < order@.len() && order@[i as int] == id,
            None => !order@.contains(id),
        },
{
    let mut lo: usize = 0;
    let mut hi: usize = order.len();
    while lo < hi
        invariant
            lo <= hi <= order.len(),
            sorted(order@),
            forall|j: int| 0 <= j < lo ==> order@[j] < id,
            forall|j: int| hi <= j < order@.len() ==> order@[j] > id,
        decreases hi - lo,
    {
        let mid = lo + (hi - lo) / 2;
        let v = order[mid];
        if v == id {
            return Some(mid);
        } else if v < id {
            lo = mid + 1;
        } else {
            hi = mid;
        }
    }
    proof {
        if order@.contains(id) {
            let j = choose|j: int| 0 <= j < order@.len() && order@[j] == id;
            assert(order@[j] == id);
        }
    }
    None
}

/// Number of formation columns.
pub const FORMATION_COLS: usize = 3;

/// The grid cell of formation slot `index`: its row, its column measured
/// from the centre column (-1, 0 or 1), and whether the row is staggered
/// (odd rows sit half a column lower).
pub fn formation_cell(index: usize) -> (cell: (usize, i64, bool))
    ensures
        cell.0 == index / 3,
        cell.1 == (index % 3) as int - 1,
        cell.2 == (index / 3 % 2 == 1),
{
    let row = index / FORMATION_COLS;
    let col = index % FORMATION_COLS;
    let centered: i64 = col as i64 - 1;
    (row, centered, row % 2 != 0)
}

} // verus!

verus! {

/// Damage a peon's strike deals to a ram head: the peon's strength (1 when it
/// has no stats, and never below 1) mitigated by the target's armor.
pub fn strike_damage(strength: Option<i32>, armor: i32) -> (d: i32)
    requires
        i32::MIN <= 1 - armor <= i32::MAX,
        strength matches Some(s) ==> i32::MIN <= s - armor <= i32::MAX,
    ensures
        ({
            let raw: int = match strength {
                Some(s) => if s > 1 { s as int } else { 1 },
                None => 1,
            };
            d == if raw - armor > 1 { raw - armor } else { 1 }
        }),
{
    let s: i32 = match strength {
        Some(s) => s,
        None => 1,
    };
    let raw: i32 = if s > 1 { s } else { 1 };
    mitigated_damage(raw, armor)
}

/// What a peon is doing.
#[derive(Clone, Copy, PartialEq, Eq, Debug, Structural)]
pub enum PeonState {
    Walk,
    Return,
    AttackHit1,
    AttackHit2,
    Recover,
}

/// The discrete part of a peon's brain (its timers and velocity are kept by
/// the caller, which also measures distances).
#[derive(Clone, Copy, PartialEq, Eq, Debug, Structural)]
pub struct PeonBrain {
    pub state: PeonState,
    pub walk_step: usize,
    pub attack_step: usize,
    pub facing_right: bool,
    pub hit_this_attack: bool,
}

/// What the peon perceives this frame, measured by the caller.
#[derive(Clone, Copy, PartialEq, Eq, Debug, Structural)]
pub struct PeonSenses {
    /// The nearest living ram head is within attack range.
    pub enemy_in_reach: bool,
    /// The nearest living ram head is at or right of the peon (true with no
    /// ram head at all).
    pub enemy_to_right: bool,
    /// The peon walked past the right edge of the map by the despawn margin.
    pub past_map_edge: bool,
    /// The peon is too far ahead of the knight.
    pub past_knight: bool,
    /// A returning peon has reached its formation slot (or has none).
    pub slot_reached: bool,
    /// The current attack frame has been shown for its full duration.
    pub frame_due: bool,
    /// The recovery pause has run out.
    pub recover_done: bool,
    /// Some ram head overlaps the peon's attack rect.
    pub target_in_strike: bool,
}

/// What the caller carries out for the peon this frame.
#[derive(Clone, Copy, PartialEq, Eq, Debug, Structural)]
pub enum PeonAction {
    /// An attack begins: zero the timers and the velocity, show nothing new.
    BeginAttack,
    /// Remove the peon from the world.
    Despawn,
    /// Run the steering locomotion (toward the enemy or the slot).
    Steer,
    /// Show frame `step` of the first attack animation.
    ShowHit1(usize),
    /// Show frame `step` of the second attack animation.
    ShowHit2(usize),
    /// Nothing to draw differently this frame.
    Idle,
}

/// One frame of a peon's life.
#[derive(Clone, Copy, PartialEq, Eq, Debug, Structural)]
pub struct PeonStep {
    pub brain: PeonBrain,
    pub action: PeonAction,
    /// The peon's attack rect is open (it was attacking when the frame began).
    pub attacking: bool,
    /// The peon lands its strike this frame (fires an attack event).
    pub strike: bool,
}

impl PeonBrain {
    /// A fresh peon walks, facing right.
    pub fn new() -> (b: PeonBrain)
        ensures
            b.state == PeonState::Walk,
            b.walk_step == 0,
            b.attack_step == 0,
            b.facing_right,
            !b.hit_this_attack,
    {
        PeonBrain {
            state: PeonState::Walk,
            walk_step: 0,
            attack_step: 0,
            facing_right: true,
            hit_this_attack: false,
        }
    }

    /// The attack step indexes the animation being played.
    pub open spec fn wf(self, hit1_len: usize, hit2_len: usize) -> bool {
        &&& self.state == PeonState::AttackHit1 ==> self.attack_step < hit1_len
        &&& self.state == PeonState::AttackHit2 ==> self.attack_step < hit2_len
    }

    /// The brain right after an attack starts.
    pub open spec fn attack_start(self, senses: PeonSenses) -> PeonBrain {
        PeonBrain {
            state: PeonState::AttackHit1,
            attack_step: 0,
            hit_this_attack: false,
            facing_right: senses.enemy_to_right,
            ..self
        }
    }

    /// Whether a frame in this state begins an attack for these senses.
    pub open spec fn begins_attack(self, senses: PeonSenses) -> bool {
        (self.state == PeonState::Walk || self.state == PeonState::Return)
            && senses.enemy_in_reach
    }

    /// The transition table of one frame, before the strike is settled:
    /// the next brain and the action.
    pub open spec fn moved(self, senses: PeonSenses, hit1_len: usize, hit2_len: usize) -> (
        PeonBrain,
        PeonAction,
    ) {
        match self.state {
            PeonState::Walk => if senses.enemy_in_reach {
                (self.attack_start(senses), PeonAction::BeginAttack)
            } else if senses.past_map_edge {
                (self, PeonAction::Despawn)
            } else if senses.past_knight {
                (PeonBrain { state: PeonState::Return, ..self }, PeonAction::Idle)
            } else {
                (self, PeonAction::Steer)
            },
            PeonState::Return => if senses.enemy_in_reach {
                (self.attack_start(senses), PeonAction::BeginAttack)
            } else if senses.slot_reached {
                (PeonBrain { state: PeonState::Walk, walk_step: 0, ..self }, PeonAction::Idle)
            } else {
                (self, PeonAction::Steer)
            },
            PeonState::AttackHit1 => {
                let shown = PeonAction::ShowHit1(self.attack_step);
                if !senses.frame_due {
                    (self, shown)
                } else if self.attack_step + 1 < hit1_len {
                    (PeonBrain { attack_step: (self.attack_step + 1) as usize, ..self }, shown)
                } else {
                    (PeonBrain { state: PeonState::AttackHit2, attack_step: 0, ..self }, shown)
                }
            },
            PeonState::AttackHit2 => {
                let shown = PeonAction::ShowHit2(self.attack_step);
                if !senses.frame_due {
                    (self, shown)
                } else if self.attack_step + 1 < hit2_len {
                    (PeonBrain { attack_step: (self.attack_step + 1) as usize, ..self }, shown)
                } else {
                    (
                        PeonBrain {
                            state: PeonState::Recover,
                            attack_step: (self.attack_step + 1) as usize,
                            ..self
                        },
                        shown,
                    )
                }
            },
            PeonState::Recover => {
                let shown = PeonAction::ShowHit2((hit2_len - 1) as usize);
                if senses.recover_done {
                    (PeonBrain { state: PeonState::Walk, walk_step: 0, ..self }, shown)
                } else {
                    (self, shown)
                }
            },
        }
    }

    /// One whole frame: the transition, then the strike. A peon that was
    /// attacking when the frame began lands its strike if something is in
    /// its attack rect and it has not struck during this attack yet.
    pub open spec fn next(self, senses: PeonSenses, hit1_len: usize, hit2_len: usize) -> PeonStep {
        let (b, action) = self.moved(senses, hit1_len, hit2_len);
        let attacking = self.state == PeonState::AttackHit1 || self.state == PeonState::AttackHit2;
        let strike = attacking && !b.hit_this_attack && senses.target_in_strike;
        PeonStep {
            brain: PeonBrain { hit_this_attack: b.hit_this_attack || strike, ..b },
            action,
            attacking,
            strike,
        }
    }

    /// The state machine of one frame; `hit1_len` and `hit2_len` are the
    /// lengths of the two attack animations.
    pub fn step(self, senses: PeonSenses, hit1_len: usize, hit2_len: usize) -> (out: PeonStep)
        requires
            hit1_len > 0,
            hit2_len > 0,
            self.wf(hit1_len, hit2_len),
        ensures
            out == self.next(senses, hit1_len, hit2_len),
            out.brain.wf(hit1_len, hit2_len),
    {
        let attacking = self.state == PeonState::AttackHit1 || self.state == PeonState::AttackHit2;
        let mut b = self;
        let action = match self.state {
            PeonState::Walk => {
                if senses.enemy_in_reach {
                    b.state = PeonState::AttackHit1;
                    b.attack_step = 0;
                    b.hit_this_attack = false;
                    b.facing_right = senses.enemy_to_right;
                    PeonAction::BeginAttack
                } else if senses.past_map_edge {
                    PeonAction::Despawn
                } else if senses.past_knight {
                    b.state = PeonState::Return;
                    PeonAction::Idle
                } else {
                    PeonAction::Steer
                }
            },
            PeonState::Return => {
                if senses.enemy_in_reach {
                    b.state = PeonState::AttackHit1;
                    b.attack_step = 0;
                    b.hit_this_attack = false;
                    b.facing_right = senses.enemy_to_right;
                    PeonAction::BeginAttack
                } else if senses.slot_reached {
                    b.state = PeonState::Walk;
                    b.walk_step = 0;
                    PeonAction::Idle
                } else {
                    PeonAction::Steer
                }
            },
            PeonState::AttackHit1 => {
                let shown = b.attack_step;
                if senses.frame_due {
                    b.attack_step = b.attack_step + 1;
                    if b.attack_step >= hit1_len {
                        b.state = PeonState::AttackHit2;
                        b.attack_step = 0;
                    }
                }
                PeonAction::ShowHit1(shown)
            },
            PeonState::AttackHit2 => {
                let shown = b.attack_step;
                if senses.frame_due {
                    b.attack_step = b.attack_step + 1;
                    if b.attack_step >= hit2_len {
                        b.state = PeonState::Recover;
                    }
                }
                PeonAction::ShowHit2(shown)
            },
            PeonState::Recover => {
                if senses.recover_done {
                    b.state = PeonState::Walk;
                    b.walk_step = 0;
                }
                PeonAction::ShowHit2(hit2_len - 1)
            },
        };
        let strike = attacking && !b.hit_this_attack && senses.target_in_strike;
        if strike {
            b.hit_this_attack = true;
        }
        PeonStep { brain: b, action, attacking, strike }
    }
}

/// The next step of a looping animation of `len` frames.
pub fn next_walk_step(step: usize, len: usize) -> (next: usize)
    requires
        step < len,
    ensures
        next == (step + 1) % (len as int),
        next < len,
{
    (step + 1) % len
}


/// Each attack lands at most one strike: once a peon has struck, it cannot
/// strike again until a new attack begins (which clears the flag).
pub proof fn lemma_one_strike_per_attack(
    b: PeonBrain,
    senses: PeonSenses,
    hit1_len: usize,
    hit2_len: usize,
)
    requires
        b.hit_this_attack,
        !b.begins_attack(senses),
    ensures
        !b.next(senses, hit1_len, hit2_len).strike,
        b.next(senses, hit1_len, hit2_len).brain.hit_this_attack,
{
}

/// A new attack starts with a clean slate: the hit flag is cleared and the
/// first attack animation starts from its first frame, facing the enemy.
pub proof fn lemma_attack_starts_fresh(
    b: PeonBrain,
    senses: PeonSenses,
    hit1_len: usize,
    hit2_len: usize,
)
    requires
        b.begins_attack(senses),
    ensures
        b.next(senses, hit1_len, hit2_len).brain.state == PeonState::AttackHit1,
        b.next(senses, hit1_len, hit2_len).brain.attack_step == 0,
        !b.next(senses, hit1_len, hit2_len).brain.hit_this_attack,
        !b.next(senses, hit1_len, hit2_len).strike,
        b.next(senses, hit1_len, hit2_len).brain.facing_right == senses.enemy_to_right,
{
}

/// Different peons own different formation slots: when the squad's ids are
/// distinct, the formation order (the ids sorted, see `formation_order`)
/// holds each of them once, so a slot index found for one peon is never the
/// slot of another, and the squad fills exactly as many slots as it has
/// peons.
pub proof fn lemma_distinct_slots(ids: Seq<u64>, order: Seq<u64>)
    requires
        ids.no_duplicates(),
        order.to_multiset() == ids.to_multiset(),
    ensures
        order.no_duplicates(),
        order.len() == ids.len(),
        forall|i: int, j: int|
            0 <= i < order.len() && 0 <= j < order.len() && #[trigger] order[i] == #[trigger] order[j]
                ==> i == j,
{
    broadcast use vstd::seq_lib::group_to_multiset_ensures;

    ids.lemma_multiset_has_no_duplicates();
    order.lemma_multiset_has_no_duplicates_conv();
    vstd::seq_lib::to_multiset_len(ids);
    vstd::seq_lib::to_multiset_len(order);
}

/// Different formation slots stand on different grid cells: the row and
/// centred column that `formation_cell` gives slot `a` differ from those of
/// any other slot `b`, and the slot is recovered from its cell as
/// `row * 3 + column + 1`. With `lemma_distinct_slots`, no two peons of a
/// squad are sent to the same cell.
pub proof fn lemma_cell_identifies_slot(a: nat, b: nat)
    ensures
        a == (a / 3) * 3 + ((a % 3) - 1) + 1,
        a != b ==> (a / 3 != b / 3 || (a % 3) - 1 != (b % 3) - 1),
{
}

/// A peon strikes only with an attack under way: a frame lands a strike
/// exactly when the peon was in one of its two attack animations as the
/// frame began, had not struck yet during this attack, and something is in
/// its attack rect. A walking, returning or recovering peon never strikes,
/// and its attack rect is closed.
pub proof fn lemma_strike_needs_attack(b: PeonBrain, senses: PeonSenses, hit1_len: usize, hit2_len: usize)
    ensures
        ({
            let out = b.next(senses, hit1_len, hit2_len);
            &&& out.strike <==> ((b.state == PeonState::AttackHit1 || b.state == PeonState::AttackHit2)
                && !b.hit_this_attack && senses.target_in_strike)
            &&& out.attacking <==> (b.state == PeonState::AttackHit1 || b.state == PeonState::AttackHit2)
            &&& out.strike ==> out.brain.hit_this_attack
        }),
{
}

/// How a peon's attack runs: a walking or returning peon with a ram head in
/// reach starts an attack on the first frame of its first animation, facing
/// the ram head; each animation shows its current frame and moves on by one
/// frame per elapsed frame period, the first animation leading into the
/// second and the second into recovery; recovery ends into walking, from the
/// first walk frame.
pub proof fn lemma_attack_flow(b: PeonBrain, senses: PeonSenses, hit1_len: usize, hit2_len: usize)
    requires
        hit1_len > 0,
        hit2_len > 0,
        b.wf(hit1_len, hit2_len),
    ensures
        ({
            let out = b.next(senses, hit1_len, hit2_len);
            &&& ((b.state == PeonState::Walk || b.state == PeonState::Return) && senses.enemy_in_reach)
                ==> out.action == PeonAction::BeginAttack && out.brain.state == PeonState::AttackHit1
                && out.brain.attack_step == 0 && !out.brain.hit_this_attack
                && out.brain.facing_right == senses.enemy_to_right
            &&& b.state == PeonState::AttackHit1 ==> out.action == PeonAction::ShowHit1(b.attack_step)
                && (!senses.frame_due ==> out.brain.state == b.state && out.brain.attack_step == b.attack_step)
                && (senses.frame_due && b.attack_step + 1 < hit1_len ==> out.brain.state == b.state
                    && out.brain.attack_step == b.attack_step + 1)
                && (senses.frame_due && b.attack_step + 1 >= hit1_len ==> out.brain.state
                    == PeonState::AttackHit2 && out.brain.attack_step == 0)
            &&& b.state == PeonState::AttackHit2 ==> out.action == PeonAction::ShowHit2(b.attack_step)
                && (!senses.frame_due ==> out.brain.state == b.state && out.brain.attack_step == b.attack_step)
                && (senses.frame_due && b.attack_step + 1 < hit2_len ==> out.brain.state == b.state
                    && out.brain.attack_step == b.attack_step + 1)
                && (senses.frame_due && b.attack_step + 1 >= hit2_len ==> out.brain.state
                    == PeonState::Recover)
            &&& b.state == PeonState::Recover ==> out.action == PeonAction::ShowHit2((hit2_len - 1) as usize)
                && (out.brain.state == PeonState::Walk <==> senses.recover_done)
                && (senses.recover_done ==> out.brain.walk_step == 0)
                && (!senses.recover_done ==> out.brain.state == PeonState::Recover)
            &&& (b.state == PeonState::Walk && !senses.enemy_in_reach) ==> (out.action
                == PeonAction::Despawn <==> senses.past_map_edge)
        }),
{
}

} // verus!
