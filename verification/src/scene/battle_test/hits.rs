//! Landing hits: who loses hit points, and which events fire, when an attack
//! reaches its targets. A peon's swing hurts ram heads by its strength less
//! their armor; a sword or a shield-disc round deals flat damage; a ram head's
//! strike hurts a peon by the damage its stats let through.

use vstd::prelude::*;
use crate::scene::battle_test::damage::{apply_damage, hp_after, kills};
use crate::scene::battle_test::sys_peon::mitigated_damage;
use crate::scene::battle_test::sys_shield_toss::DISC_DAMAGE;
use crate::scene::battle_test::sys_swords_skill::SWORD_DAMAGE;

verus! {

/// Hit points and armor of a fighter.
#[derive(Clone, Copy, PartialEq, Eq, Debug, Structural)]
pub struct Stats {
    pub hp: i32,
    pub armor: i32,
}

/// What the store holds of one fighter that attacks can reach.
#[derive(Clone, Copy, PartialEq, Eq, Debug, Structural)]
pub struct Combatant {
    pub id: u64,
    /// Its stats, when it has any (a fighter without stats takes no damage).
    pub stats: Option<Stats>,
    /// It has a body on screen (where a health-change number is shown).
    pub has_body: bool,
}

/// How a hit's damage is found from the target's armor.
#[derive(Clone, Copy, PartialEq, Eq, Debug, Structural)]
pub enum DamageRule {
    /// This raw damage less the armor, but at least 1.
    Mitigated(i32),
    /// This damage, whatever the armor.
    Flat(i32),
}

/// An event a landed hit fires.
#[derive(Clone, Copy, PartialEq, Eq, Debug, Structural)]
pub enum CombatEvent {
    /// The fighter was alive before this hit and is dead after it.
    Death(u64),
    /// The fighter's hit points changed by `amount` (negative for damage).
    HealthChange { entity: u64, amount: i32 },
    /// The fighter was hit by the attacker.
    Hit { victim: u64, attacker: u64 },
}

/// The damage a rule deals to a target with this armor.
pub open spec fn rule_damage(rule: DamageRule, armor: i32) -> int {
    match rule {
        DamageRule::Mitigated(raw) => if raw - armor > 1 {
            raw - armor
        } else {
            1
        },
        DamageRule::Flat(d) => d as int,
    }
}

/// No two fighters share an id.
pub open spec fn distinct_ids(roster: Seq<Combatant>) -> bool {
    forall|i: int, j: int|
        0 <= i < roster.len() && 0 <= j < roster.len() && i != j ==> roster[i].id != roster[j].id
}

/// Where the fighter with this id stands in the roster, `-1` when absent.
pub open spec fn index_of(roster: Seq<Combatant>, id: u64) -> int {
    if exists|i: int| 0 <= i < roster.len() && roster[i].id == id {
        choose|i: int| 0 <= i < roster.len() && roster[i].id == id
    } else {
        -1
    }
}

/// The rule's arithmetic stays within `i32` for this fighter (the
/// subtractions the game makes would overflow otherwise).
pub open spec fn fits(rule: DamageRule, c: Combatant) -> bool {
    c.stats matches Some(st) ==> {
        &&& match rule {
            DamageRule::Mitigated(raw) => i32::MIN <= raw - st.armor <= i32::MAX,
            DamageRule::Flat(d) => 0 <= d,
        }
        &&& st.hp - rule_damage(rule, st.armor) >= i32::MIN
    }
}

/// Every fighter of the roster fits the rule.
pub open spec fn roster_fits(rule: DamageRule, roster: Seq<Combatant>) -> bool {
    forall|i: int| 0 <= i < roster.len() ==> fits(rule, #[trigger] roster[i])
}

/// One hit on `target`: a fighter with stats loses the rule's damage (never
/// below zero hit points), a death is reported when this hit kills it, and a
/// health change when it has a body; a hit event is fired whatever the
/// target.
pub open spec fn hit_one(roster: Seq<Combatant>, attacker: u64, rule: DamageRule, target: u64) -> (
    Seq<Combatant>,
    Seq<CombatEvent>,
) {
    let i = index_of(roster, target);
    let hit = seq![CombatEvent::Hit { victim: target, attacker }];
    if i >= 0 && roster[i].stats is Some {
        let st = roster[i].stats->0;
        let d = rule_damage(rule, st.armor);
        let hp2 = hp_after(st.hp as int, d);
        let death = if kills(st.hp as int, d) {
            seq![CombatEvent::Death(target)]
        } else {
            Seq::empty()
        };
        let change = if roster[i].has_body {
            seq![CombatEvent::HealthChange { entity: target, amount: (-d) as i32 }]
        } else {
            Seq::empty()
        };
        (
            roster.update(i, Combatant { stats: Some(Stats { hp: hp2 as i32, armor: st.armor }), ..roster[i] }),
            death + change + hit,
        )
    } else {
        (roster, hit)
    }
}

/// An attack's hits landed on its targets one after the other, in order: the
/// roster after them and the events in the order they fire.
pub open spec fn hits_on(roster: Seq<Combatant>, attacker: u64, rule: DamageRule, targets: Seq<u64>) -> (
    Seq<Combatant>,
    Seq<CombatEvent>,
)
    decreases targets.len(),
{
    if targets.len() == 0 {
        (roster, Seq::empty())
    } else {
        let (r1, e1) = hits_on(roster, attacker, rule, targets.drop_last());
        let (r2, e2) = hit_one(r1, attacker, rule, targets.last());
        (r2, e1 + e2)
    }
}

/// A hit keeps the roster's ids and its fit to the rule.
proof fn lemma_hit_one_keeps(roster: Seq<Combatant>, attacker: u64, rule: DamageRule, target: u64)
    requires
        distinct_ids(roster),
        roster_fits(rule, roster),
    ensures
        distinct_ids(hit_one(roster, attacker, rule, target).0),
        roster_fits(rule, hit_one(roster, attacker, rule, target).0),
        hit_one(roster, attacker, rule, target).0.len() == roster.len(),
        forall|k: int|
            0 <= k < roster.len() ==> (#[trigger] hit_one(roster, attacker, rule, target).0[k]).id
                == roster[k].id,
{
    let r2 = hit_one(roster, attacker, rule, target).0;
    let i = index_of(roster, target);
    if i >= 0 && roster[i].stats is Some {
        assert(fits(rule, roster[i]));
        assert forall|k: int| 0 <= k < r2.len() implies fits(rule, #[trigger] r2[k]) by {
            assert(fits(rule, roster[k]));
        }
    }
}

/// Finds the fighter with this id.
fn find(roster: &Vec<Combatant>, id: u64) -> (i: Option<usize>)
    requires
        distinct_ids(roster@),
    ensures
        match i {
            Some(k) => k as int == index_of(roster@, id) && k < roster@.len(),
            None => index_of(roster@, id) == -1,
        },
{
    let mut k: usize = 0;
    while k < roster.len()
        invariant
            k <= roster@.len(),
            distinct_ids(roster@),
            forall|j: int| 0 <= j < k ==> roster@[j].id != id,
        decreases roster.len() - k,
    {
        if roster[k].id == id {
            proof {
                let c = choose|j: int| 0 <= j < roster@.len() && roster@[j].id == id;
                assert(roster@[k as int].id == id);
                assert(roster@[c].id == id);
                assert(c == k);
            }
            return Some(k);
        }
        k = k + 1;
    }
    None
}

/// Lands one hit and appends the events it fires.
fn land_hit(
    roster: &mut Vec<Combatant>,
    events: &mut Vec<CombatEvent>,
    attacker: u64,
    rule: DamageRule,
    target: u64,
)
    requires
        distinct_ids(old(roster)@),
        roster_fits(rule, old(roster)@),
    ensures
        final(roster)@ == hit_one(old(roster)@, attacker, rule, target).0,
        final(events)@ == old(events)@ + hit_one(old(roster)@, attacker, rule, target).1,
{
    let ghost r0 = roster@;
    let ghost e0 = events@;
    let hit = CombatEvent::Hit { victim: target, attacker };
    match find(roster, target) {
        Some(i) => {
            let c = roster[i];
            match c.stats {
                Some(st) => {
                    assert(fits(rule, r0[i as int]));
                    let d: i32 = match rule {
                        DamageRule::Mitigated(raw) => mitigated_damage(raw, st.armor),
                        DamageRule::Flat(d) => d,
                    };
                    let (hp2, died) = apply_damage(st.hp, d);
                    roster.set(i, Combatant { stats: Some(Stats { hp: hp2, armor: st.armor }), ..c });
                    if died {
                        events.push(CombatEvent::Death(target));
                    }
                    if c.has_body {
                        events.push(CombatEvent::HealthChange { entity: target, amount: -d });
                    }
                    events.push(hit);
                    proof {
                        let (r2, e2) = hit_one(r0, attacker, rule, target);
                        assert(roster@ =~= r2);
                        assert(events@ =~= e0 + e2);
                    }
                },
                None => {
                    events.push(hit);
                    assert(events@ =~= e0 + hit_one(r0, attacker, rule, target).1);
                },
            }
        },
        None => {
            events.push(hit);
            assert(events@ =~= e0 + hit_one(r0, attacker, rule, target).1);
        },
    }
}

/// Lands an attack's hits on its targets, in order, and returns the events
/// due, in the order they fire. A target that appears twice is hit twice,
/// the second time at the hit points the first left.
pub fn resolve_hits(roster: &mut Vec<Combatant>, attacker: u64, rule: DamageRule, targets: &Vec<u64>) -> (events: Vec<CombatEvent>)
    requires
        distinct_ids(old(roster)@),
        roster_fits(rule, old(roster)@),
    ensures
        (final(roster)@, events@) == hits_on(old(roster)@, attacker, rule, targets@),
        distinct_ids(final(roster)@),
{
    let ghost r0 = roster@;
    let mut events: Vec<CombatEvent> = Vec::new();
    let mut i: usize = 0;
    while i < targets.len()
        invariant
            i <= targets@.len(),
            (roster@, events@) == hits_on(r0, attacker, rule, targets@.take(i as int)),
            distinct_ids(roster@),
            roster_fits(rule, roster@),
        decreases targets.len() - i,
    {
        proof {
            lemma_hit_one_keeps(roster@, attacker, rule, targets@[i as int]);
            let t = targets@.take(i + 1);
            assert(t.drop_last() =~= targets@.take(i as int));
            assert(t.last() == targets@[i as int]);
        }
        land_hit(roster, &mut events, attacker, rule, targets[i]);
        i = i + 1;
    }
    proof {
        assert(targets@.take(targets@.len() as int) =~= targets@);
    }
    events
}

/// A peon's swing lands on its targets (ram heads). Only a peon's attack
/// counts here: another attacker's leaves everything unchanged. The swing's
/// raw damage is the peon's strength (1 when it has no stats), never below 1,
/// less each target's armor, never below 1.
pub fn resolve_peon_attack(
    ram_heads: &mut Vec<Combatant>,
    attacker_is_peon: bool,
    strength: Option<i32>,
    attacker: u64,
    targets: &Vec<u64>,
) -> (events: Vec<CombatEvent>)
    requires
        distinct_ids(old(ram_heads)@),
        roster_fits(
            DamageRule::Mitigated(
                match strength {
                    Some(s) => if s > 1 {
                        s
                    } else {
                        1
                    },
                    None => 1,
                },
            ),
            old(ram_heads)@,
        ),
    ensures
        !attacker_is_peon ==> final(ram_heads)@ == old(ram_heads)@ && events@.len() == 0,
        attacker_is_peon ==> (final(ram_heads)@, events@) == hits_on(
            old(ram_heads)@,
            attacker,
            DamageRule::Mitigated(
                match strength {
                    Some(s) => if s > 1 {
                        s
                    } else {
                        1
                    },
                    None => 1,
                },
            ),
            targets@,
        ),
{
    if !attacker_is_peon {
        return Vec::new();
    }
    let s: i32 = match strength {
        Some(s) => s,
        None => 1,
    };
    let raw: i32 = if s > 1 {
        s
    } else {
        1
    };
    resolve_hits(ram_heads, attacker, DamageRule::Mitigated(raw), targets)
}

/// The strikes of the caster's swords this frame land on the ram heads they
/// cut, in sword order, for `SWORD_DAMAGE` each.
pub fn resolve_sword_strikes(ram_heads: &mut Vec<Combatant>, caster: u64, struck: &Vec<u64>) -> (events: Vec<CombatEvent>)
    requires
        distinct_ids(old(ram_heads)@),
        roster_fits(DamageRule::Flat(SWORD_DAMAGE), old(ram_heads)@),
    ensures
        (final(ram_heads)@, events@) == hits_on(old(ram_heads)@, caster, DamageRule::Flat(SWORD_DAMAGE), struck@),
{
    resolve_hits(ram_heads, caster, DamageRule::Flat(SWORD_DAMAGE), struck)
}

/// A grinding disc's damage round lands on the ram heads its rects cut, in
/// store order, for `DISC_DAMAGE` each.
pub fn resolve_disc_round(ram_heads: &mut Vec<Combatant>, caster: u64, cut: &Vec<u64>) -> (events: Vec<CombatEvent>)
    requires
        distinct_ids(old(ram_heads)@),
        roster_fits(DamageRule::Flat(DISC_DAMAGE), old(ram_heads)@),
    ensures
        (final(ram_heads)@, events@) == hits_on(old(ram_heads)@, caster, DamageRule::Flat(DISC_DAMAGE), cut@),
{
    resolve_hits(ram_heads, caster, DamageRule::Flat(DISC_DAMAGE), cut)
}

/// What a ram head's strike does to the peon it targets, given the damage
/// the peon's stats let through: nothing unless the peon is there with stats
/// and a body; otherwise its hit points drop (never below zero), a death is
/// reported when this strike kills it, and a health change is fired.
pub open spec fn enemy_strike(peons: Seq<Combatant>, target: u64, damage: i32) -> (
    Seq<Combatant>,
    Seq<CombatEvent>,
) {
    let i = index_of(peons, target);
    if i >= 0 && peons[i].stats is Some && peons[i].has_body {
        let st = peons[i].stats->0;
        let hp2 = hp_after(st.hp as int, damage as int);
        let death = if kills(st.hp as int, damage as int) {
            seq![CombatEvent::Death(target)]
        } else {
            Seq::empty()
        };
        (
            peons.update(i, Combatant { stats: Some(Stats { hp: hp2 as i32, armor: st.armor }), ..peons[i] }),
            death + seq![CombatEvent::HealthChange { entity: target, amount: (-damage) as i32 }],
        )
    } else {
        (peons, Seq::empty())
    }
}

/// A ram head's strike lands on the peon it targets (see `enemy_strike`).
pub fn resolve_enemy_strike(peons: &mut Vec<Combatant>, target: u64, damage: i32) -> (events: Vec<CombatEvent>)
    requires
        distinct_ids(old(peons)@),
        damage > i32::MIN,
        forall|i: int|
            0 <= i < old(peons)@.len() && (#[trigger] old(peons)@[i]).stats is Some ==> i32::MIN
                <= old(peons)@[i].stats->0.hp - damage <= i32::MAX,
    ensures
        (final(peons)@, events@) == enemy_strike(old(peons)@, target, damage),
{
    let ghost p0 = peons@;
    let mut events: Vec<CombatEvent> = Vec::new();
    match find(peons, target) {
        Some(i) => {
            let c = peons[i];
            if let Some(st) = c.stats {
                if c.has_body {
                    let (hp2, died) = apply_damage(st.hp, damage);
                    peons.set(i, Combatant { stats: Some(Stats { hp: hp2, armor: st.armor }), ..c });
                    if died {
                        events.push(CombatEvent::Death(target));
                    }
                    events.push(CombatEvent::HealthChange { entity: target, amount: -damage });
                    proof {
                        let (r2, e2) = enemy_strike(p0, target, damage);
                        assert(peons@ =~= r2);
                        assert(events@ =~= e2);
                    }
                }
            }
        },
        None => {},
    }
    events
}

/// However the hits fall, the roster keeps its fighters, and no event of an
/// attack reports the death of a fighter whose hit points were already gone
/// before it: a death is reported only by the hit that takes a fighter from
/// alive to dead.
pub proof fn lemma_no_death_for_the_dead(
    roster: Seq<Combatant>,
    attacker: u64,
    rule: DamageRule,
    targets: Seq<u64>,
    id: u64,
)
    requires
        distinct_ids(roster),
        roster_fits(rule, roster),
        index_of(roster, id) >= 0,
        roster[index_of(roster, id)].stats matches Some(st) && st.hp <= 0,
    ensures
        hits_on(roster, attacker, rule, targets).0.len() == roster.len(),
        !hits_on(roster, attacker, rule, targets).1.contains(CombatEvent::Death(id)),
    decreases targets.len(),
{
    if targets.len() > 0 {
        lemma_no_death_for_the_dead(roster, attacker, rule, targets.drop_last(), id);
        let r1 = hits_on(roster, attacker, rule, targets.drop_last()).0;
        lemma_hits_on_keeps(roster, attacker, rule, targets.drop_last());
        let i = index_of(roster, id);
        assert(r1[i].id == id);
        lemma_index_of(r1, i);
        lemma_dead_stays_dead(roster, attacker, rule, targets.drop_last(), id);
        let (r2, e2) = hit_one(r1, attacker, rule, targets.last());
        let e1 = hits_on(roster, attacker, rule, targets.drop_last()).1;
        assert(!e2.contains(CombatEvent::Death(id)));
        assert(!(e1 + e2).contains(CombatEvent::Death(id))) by {
            if (e1 + e2).contains(CombatEvent::Death(id)) {
                let k = choose|k: int| 0 <= k < (e1 + e2).len() && (e1 + e2)[k] == CombatEvent::Death(id);
                if k < e1.len() {
                    assert(e1[k] == (e1 + e2)[k]);
                } else {
                    assert(e2[k - e1.len()] == (e1 + e2)[k]);
                }
            }
        }
    }
}

/// The fighter at `i` is the one `index_of` finds by its id.
proof fn lemma_index_of(roster: Seq<Combatant>, i: int)
    requires
        distinct_ids(roster),
        0 <= i < roster.len(),
    ensures
        index_of(roster, roster[i].id) == i,
{
    assert(roster[i].id == roster[i].id);
}

/// Hits keep the roster's length, ids and fit to the rule.
proof fn lemma_hits_on_keeps(roster: Seq<Combatant>, attacker: u64, rule: DamageRule, targets: Seq<u64>)
    requires
        distinct_ids(roster),
        roster_fits(rule, roster),
    ensures
        distinct_ids(hits_on(roster, attacker, rule, targets).0),
        roster_fits(rule, hits_on(roster, attacker, rule, targets).0),
        hits_on(roster, attacker, rule, targets).0.len() == roster.len(),
        forall|k: int|
            0 <= k < roster.len() ==> (#[trigger] hits_on(roster, attacker, rule, targets).0[k]).id
                == roster[k].id,
    decreases targets.len(),
{
    if targets.len() > 0 {
        lemma_hits_on_keeps(roster, attacker, rule, targets.drop_last());
        let r1 = hits_on(roster, attacker, rule, targets.drop_last()).0;
        lemma_hit_one_keeps(r1, attacker, rule, targets.last());
        let r2 = hits_on(roster, attacker, rule, targets).0;
        assert forall|k: int| 0 <= k < roster.len() implies (#[trigger] r2[k]).id == roster[k].id by {
            assert(r1[k].id == roster[k].id);
        }
    }
}

/// A fighter at zero hit points or below stays so through any hits.
proof fn lemma_dead_stays_dead(roster: Seq<Combatant>, attacker: u64, rule: DamageRule, targets: Seq<u64>, id: u64)
    requires
        distinct_ids(roster),
        roster_fits(rule, roster),
        index_of(roster, id) >= 0,
        roster[index_of(roster, id)].stats matches Some(st) && st.hp <= 0,
    ensures
        hits_on(roster, attacker, rule, targets).0[index_of(roster, id)].stats matches Some(st) && st.hp
            <= 0,
    decreases targets.len(),
{
    let i = index_of(roster, id);
    if targets.len() > 0 {
        lemma_dead_stays_dead(roster, attacker, rule, targets.drop_last(), id);
        lemma_hits_on_keeps(roster, attacker, rule, targets.drop_last());
        let r1 = hits_on(roster, attacker, rule, targets.drop_last()).0;
        assert(r1[i].id == id);
        lemma_index_of(r1, i);
        let t = targets.last();
        let j = index_of(r1, t);
        if j >= 0 && r1[j].stats is Some && j == i {
            let st = r1[i].stats->0;
            assert(fits(rule, r1[i]));
        }
    }
}

} // verus!
