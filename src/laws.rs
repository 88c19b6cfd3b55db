use vstd::prelude::*;
use crate::collision::{bounce_spec, separate_spec, touching};
use crate::economy::{filter_run, filter_spec};
use crate::engine::{pair_step, scan_from, scan_row, spawns_for, unlock_all, ScanState};
use crate::geometry::Reactor;
use crate::molecule::{products_of, reaction_of, MoleculeType, ReactionType};
use crate::simulation::{tick_post, Simulation};

verus! {

/// The reaction table does not depend on the order of the two kinds.
pub proof fn reaction_symmetric(a: MoleculeType, b: MoleculeType)
    ensures
        reaction_of(a, b) == reaction_of(b, a),
{
}

/// Two touching, unconsumed molecules Red and Blue (in either order) react:
/// both are consumed, exactly one Purple is queued at the first one's
/// position, and the power grows by ten units, up to its ceiling.
pub proof fn red_blue_reacts(s: ScanState, i: int, j: int, reactor: Reactor)
    requires
        0 <= i < j < s.molecules.len(),
        !s.molecules[i].reacted,
        !s.molecules[j].reacted,
        touching(s.molecules[i], s.molecules[j]),
        (s.molecules[i].variant == MoleculeType::Red && s.molecules[j].variant == MoleculeType::Blue)
            || (s.molecules[i].variant == MoleculeType::Blue && s.molecules[j].variant
            == MoleculeType::Red),
    ensures
        ({
            let r = pair_step(s, i, j, reactor);
            &&& r.molecules[i].reacted
            &&& r.molecules[j].reacted
            &&& r.spawns.len() == s.spawns.len() + 1
            &&& r.spawns.last().variant == MoleculeType::Purple
            &&& r.spawns.last().origin == s.molecules[i].position
            &&& r.power == crate::geometry::clamp(
                s.power + 10000,
                0,
                crate::economy::MAX_POWER as int,
            )
        }),
{
    let r = pair_step(s, i, j, reactor);
    assert(reaction_of(s.molecules[i].variant, s.molecules[j].variant) == Some(
        ReactionType::RedBlue,
    ));
    assert(spawns_for(ReactionType::RedBlue, s.molecules[i].position).len() == 1);
    assert(r.spawns == s.spawns + spawns_for(ReactionType::RedBlue, s.molecules[i].position));
}

/// An elastic collision changes only the two molecules' motion, by the
/// impulse formula and the separation push: power, discoveries and queued
/// creations stay as they were, and so does every other molecule.
pub proof fn bounce_keeps_economy(s: ScanState, i: int, j: int, reactor: Reactor)
    requires
        0 <= i < j < s.molecules.len(),
        !s.molecules[i].reacted,
        !s.molecules[j].reacted,
        touching(s.molecules[i], s.molecules[j]),
        reaction_of(s.molecules[i].variant, s.molecules[j].variant).is_none(),
    ensures
        ({
            let r = pair_step(s, i, j, reactor);
            let a = s.molecules[i];
            let b = s.molecules[j];
            &&& r.power == s.power
            &&& r.unlocked == s.unlocked
            &&& r.spawns == s.spawns
            &&& r.molecules.len() == s.molecules.len()
            &&& r.molecules[i] == a.with_motion(
                separate_spec(a, b, reactor).0,
                bounce_spec(a, b).0,
            )
            &&& r.molecules[j] == b.with_motion(
                separate_spec(a, b, reactor).1,
                bounce_spec(a, b).1,
            )
            &&& forall|k: int|
                0 <= k < s.molecules.len() && k != i && k != j ==> r.molecules[k]
                    == s.molecules[k]
        }),
{
}

/// No two kinds among `ms` react with each other.
pub open spec fn inert(ms: Seq<MoleculeType>) -> bool {
    forall|a: int, b: int|
        0 <= a < ms.len() && 0 <= b < ms.len() && a != b ==> (#[trigger] reaction_of(
            ms[a],
            ms[b],
        )).is_none()
}

pub open spec fn kinds(s: ScanState) -> Seq<MoleculeType> {
    s.molecules.map_values(|m: crate::particle::Molecule| m.variant)
}

/// Discovering kinds never forgets one.
pub proof fn unlock_all_grows(u: Set<MoleculeType>, ts: Seq<MoleculeType>)
    ensures
        u.subset_of(unlock_all(u, ts)),
    decreases ts.len(),
{
    if ts.len() > 0 {
        unlock_all_grows(u, ts.drop_last());
    }
}

/// Discovering kinds adds exactly those kinds, so discovering a kind a
/// second time changes nothing.
pub proof fn unlock_all_adds(u: Set<MoleculeType>, ts: Seq<MoleculeType>)
    ensures
        unlock_all(u, ts) == u + ts.to_set(),
        unlock_all(unlock_all(u, ts), ts) == unlock_all(u, ts),
{
    unlock_all_union(u, ts);
    unlock_all_union(u + ts.to_set(), ts);
    assert((u + ts.to_set()) + ts.to_set() =~= u + ts.to_set());
}

proof fn unlock_all_union(u: Set<MoleculeType>, ts: Seq<MoleculeType>)
    ensures
        unlock_all(u, ts) == u + ts.to_set(),
    decreases ts.len(),
{
    if ts.len() > 0 {
        unlock_all_union(u, ts.drop_last());
        assert forall|t: MoleculeType| ts.to_set().contains(t) <==> (ts.drop_last().to_set().contains(t) || t == ts.last()) by {
            if ts.to_set().contains(t) && t != ts.last() {
                let k = choose|k: int| 0 <= k < ts.len() && ts[k] == t;
                assert(k != ts.len() - 1);
                assert(ts.drop_last()[k] == t);
            }
            if ts.drop_last().to_set().contains(t) {
                let k = choose|k: int| 0 <= k < ts.drop_last().len() && ts.drop_last()[k] == t;
                assert(ts[k] == t);
            }
            if t == ts.last() {
                assert(ts[ts.len() - 1] == t);
            }
        }
        assert(unlock_all(u, ts) =~= u + ts.to_set());
    } else {
        assert(unlock_all(u, ts) =~= u + ts.to_set());
    }
}

proof fn pair_step_shape(s: ScanState, i: int, j: int, reactor: Reactor)
    requires
        0 <= i < j < s.molecules.len(),
    ensures
        pair_step(s, i, j, reactor).molecules.len() == s.molecules.len(),
        kinds(pair_step(s, i, j, reactor)) == kinds(s),
        s.unlocked.subset_of(pair_step(s, i, j, reactor).unlocked),
        inert(kinds(s)) ==> pair_step(s, i, j, reactor).power == s.power
            && pair_step(s, i, j, reactor).unlocked == s.unlocked
            && pair_step(s, i, j, reactor).spawns == s.spawns,
{
    let r = pair_step(s, i, j, reactor);
    let a = s.molecules[i];
    let b = s.molecules[j];
    if !(a.reacted || b.reacted || !touching(a, b)) {
        if let Some(rt) = reaction_of(a.variant, b.variant) {
            unlock_all_grows(s.unlocked, products_of(rt));
            if inert(kinds(s)) {
                assert(reaction_of(kinds(s)[i], kinds(s)[j]).is_none());
            }
        }
    }
    assert(kinds(r) =~= kinds(s));
}

proof fn scan_row_shape(s: ScanState, i: int, j: int, n: int, reactor: Reactor)
    requires
        0 <= i < j,
        n == s.molecules.len(),
    ensures
        scan_row(s, i, j, n, reactor).molecules.len() == n,
        kinds(scan_row(s, i, j, n, reactor)) == kinds(s),
        s.unlocked.subset_of(scan_row(s, i, j, n, reactor).unlocked),
        inert(kinds(s)) ==> scan_row(s, i, j, n, reactor).power == s.power
            && scan_row(s, i, j, n, reactor).unlocked == s.unlocked
            && scan_row(s, i, j, n, reactor).spawns == s.spawns,
    decreases n - j,
{
    if j < n {
        pair_step_shape(s, i, j, reactor);
        scan_row_shape(pair_step(s, i, j, reactor), i, j + 1, n, reactor);
    }
}

proof fn scan_from_shape(s: ScanState, i: int, n: int, reactor: Reactor)
    requires
        0 <= i,
        n == s.molecules.len(),
    ensures
        scan_from(s, i, n, reactor).molecules.len() == n,
        kinds(scan_from(s, i, n, reactor)) == kinds(s),
        s.unlocked.subset_of(scan_from(s, i, n, reactor).unlocked),
        inert(kinds(s)) ==> scan_from(s, i, n, reactor).power == s.power
            && scan_from(s, i, n, reactor).unlocked == s.unlocked
            && scan_from(s, i, n, reactor).spawns == s.spawns,
    decreases n - i,
{
    if i < n {
        scan_row_shape(s, i, i + 1, n, reactor);
        scan_from_shape(scan_row(s, i, i + 1, n, reactor), i + 1, n, reactor);
    }
}

/// A tick in which no two live molecules can react leaves the power and
/// the discovered kinds as they were, and creates no molecule: elastic
/// collisions only move molecules.
pub proof fn inert_tick_keeps_power(old: Simulation, new: Simulation, dt: int)
    requires
        old.outcome == crate::clock::Outcome::Running,
        tick_post(old, new, dt),
        inert(old.molecules@.map_values(|m: crate::particle::Molecule| m.variant)),
    ensures
        new.power == old.power,
        new.unlocked@ == old.unlocked@,
        old.scan_result().spawns.len() == 0,
{
    let s0 = ScanState {
        molecules: old.molecules@,
        spawns: Seq::empty(),
        power: old.power.current_power as int,
        unlocked: old.unlocked@,
    };
    assert(kinds(s0) == old.molecules@.map_values(|m: crate::particle::Molecule| m.variant));
    scan_from_shape(s0, 0, old.molecules@.len() as int, old.reactor);
}

/// Every live molecule of a well-formed run lies inside the reactor.
pub proof fn molecules_contained(sim: Simulation)
    requires
        sim.wf(),
    ensures
        forall|k: int|
            0 <= k < sim.molecules@.len() ==> sim.reactor.holds(
                (#[trigger] sim.molecules@[k]).position,
                sim.molecules@[k].dimensions,
            ),
{
    assert forall|k: int| 0 <= k < sim.molecules@.len() implies sim.reactor.holds(
        (#[trigger] sim.molecules@[k]).position,
        sim.molecules@[k].dimensions,
    ) by {
        assert(sim.molecules@[k].wf(sim.reactor));
    }
}

/// Whatever the wall impacts of each tick, the pressure reading stays
/// within `0..=max`.
pub proof fn pressure_bounded(p: int, dms: Seq<int>, s: int, max: int)
    requires
        0 <= p <= max,
        1 <= s <= 1000,
        forall|k: int| 0 <= k < dms.len() ==> dms[k] >= 0,
    ensures
        0 <= filter_run(p, dms, s, max) <= max,
    decreases dms.len(),
{
    if dms.len() > 0 {
        let d = dms[0];
        assert(p * (60000 - s) + 60 * d * s >= 0) by (nonlinear_arith)
            requires
                p >= 0,
                d >= 0,
                1 <= s <= 1000,
        ;
        let q = filter_spec(p, d, s, max);
        assert(0 <= q <= max);
        assert forall|k: int| 0 <= k < dms.drop_first().len() implies dms.drop_first()[k] >= 0 by {
            assert(dms.drop_first()[k] == dms[k + 1]);
        }
        pressure_bounded(q, dms.drop_first(), s, max);
    }
}

/// The kinds of queued creations, in order.
pub open spec fn spawn_kinds(sp: Seq<crate::spawn::Spawn>) -> Seq<MoleculeType> {
    sp.map_values(|x: crate::spawn::Spawn| x.variant)
}

proof fn to_set_concat(a: Seq<MoleculeType>, b: Seq<MoleculeType>)
    ensures
        (a + b).to_set() == a.to_set() + b.to_set(),
{
    assert forall|t: MoleculeType| (a + b).to_set().contains(t) <==> (a.to_set() + b.to_set()).contains(t) by {
        if (a + b).to_set().contains(t) {
            let k = choose|k: int| 0 <= k < (a + b).len() && (a + b)[k] == t;
            if k < a.len() {
                assert(a[k] == t);
            } else {
                assert(b[k - a.len()] == t);
            }
        }
        if a.to_set().contains(t) {
            let k = choose|k: int| 0 <= k < a.len() && a[k] == t;
            assert((a + b)[k] == t);
        }
        if b.to_set().contains(t) {
            let k = choose|k: int| 0 <= k < b.len() && b[k] == t;
            assert((a + b)[a.len() + k] == t);
        }
    }
    assert((a + b).to_set() =~= a.to_set() + b.to_set());
}

/// The discovered kinds are the first ones plus the kinds of every creation
/// queued so far.
pub open spec fn discovery_matches(s: ScanState, u0: Set<MoleculeType>) -> bool {
    s.unlocked == u0 + spawn_kinds(s.spawns).to_set()
}

proof fn pair_step_discovery(s: ScanState, i: int, j: int, reactor: Reactor, u0: Set<MoleculeType>)
    requires
        0 <= i < j < s.molecules.len(),
        discovery_matches(s, u0),
    ensures
        discovery_matches(pair_step(s, i, j, reactor), u0),
{
    let a = s.molecules[i];
    let b = s.molecules[j];
    if !(a.reacted || b.reacted || !touching(a, b)) {
        if let Some(rt) = reaction_of(a.variant, b.variant) {
            let r = pair_step(s, i, j, reactor);
            let ps = products_of(rt);
            unlock_all_union(s.unlocked, ps);
            assert(spawn_kinds(spawns_for(rt, a.position)) =~= ps);
            assert(spawn_kinds(r.spawns) =~= spawn_kinds(s.spawns) + ps);
            to_set_concat(spawn_kinds(s.spawns), ps);
            assert(r.unlocked =~= u0 + spawn_kinds(r.spawns).to_set());
        }
    }
}

proof fn scan_row_discovery(s: ScanState, i: int, j: int, n: int, reactor: Reactor, u0: Set<MoleculeType>)
    requires
        0 <= i < j,
        n == s.molecules.len(),
        discovery_matches(s, u0),
    ensures
        discovery_matches(scan_row(s, i, j, n, reactor), u0),
    decreases n - j,
{
    if j < n {
        pair_step_shape(s, i, j, reactor);
        pair_step_discovery(s, i, j, reactor, u0);
        scan_row_discovery(pair_step(s, i, j, reactor), i, j + 1, n, reactor, u0);
    }
}

proof fn scan_from_discovery(s: ScanState, i: int, n: int, reactor: Reactor, u0: Set<MoleculeType>)
    requires
        0 <= i,
        n == s.molecules.len(),
        discovery_matches(s, u0),
    ensures
        discovery_matches(scan_from(s, i, n, reactor), u0),
    decreases n - i,
{
    if i < n {
        scan_row_shape(s, i, i + 1, n, reactor);
        scan_row_discovery(s, i, i + 1, n, reactor, u0);
        scan_from_discovery(scan_row(s, i, i + 1, n, reactor), i + 1, n, reactor, u0);
    }
}

/// A tick discovers exactly the kinds of the products it creates: each
/// new molecule's kind is unlocked afterwards, and no other kind is added.
pub proof fn tick_discovers_products(old: Simulation, new: Simulation, dt: int)
    requires
        old.outcome == crate::clock::Outcome::Running,
        tick_post(old, new, dt),
    ensures
        new.unlocked@ == old.unlocked@ + spawn_kinds(old.scan_result().spawns).to_set(),
        forall|k: int|
            #![trigger new.molecules@[k]]
            new.molecules@.len() - old.scan_result().spawns.len() <= k < new.molecules@.len()
                ==> new.unlocked@.contains(new.molecules@[k].variant),
{
    let s0 = ScanState {
        molecules: old.molecules@,
        spawns: Seq::empty(),
        power: old.power.current_power as int,
        unlocked: old.unlocked@,
    };
    assert(spawn_kinds(s0.spawns).to_set() =~= Set::<MoleculeType>::empty());
    assert(s0.unlocked =~= old.unlocked@ + spawn_kinds(s0.spawns).to_set());
    scan_from_discovery(s0, 0, old.molecules@.len() as int, old.reactor, old.unlocked@);
    let sp = old.scan_result().spawns;
    let base = new.molecules@.len() - sp.len();
    assert forall|k: int|
        #![trigger new.molecules@[k]]
        base <= k < new.molecules@.len() implies new.unlocked@.contains(new.molecules@[k].variant) by {
        let q = k - base;
        assert(crate::spawn::is_product(new.molecules@[base + q], sp[q], old.reactor));
        assert(spawn_kinds(sp)[q] == sp[q].variant);
    }
}

/// A tick never forgets a discovered kind.
pub proof fn tick_keeps_unlocked(old: Simulation, new: Simulation, dt: int)
    requires
        old.outcome == crate::clock::Outcome::Running,
        tick_post(old, new, dt),
    ensures
        old.unlocked@.subset_of(new.unlocked@),
{
    let s0 = ScanState {
        molecules: old.molecules@,
        spawns: Seq::empty(),
        power: old.power.current_power as int,
        unlocked: old.unlocked@,
    };
    scan_from_shape(s0, 0, old.molecules@.len() as int, old.reactor);
}

} // verus!
