use vstd::prelude::*;
use crate::collision::{bounce, bounce_spec, separate, separate_spec, touching, COLLISION_RADIUS};
use crate::economy::{Unlocked, MAX_POWER};
use crate::geometry::{abs, clamp, inside_axis, Reactor, Vec2, SPEED_LIMIT};
use crate::molecule::{power_of, products_of, reaction_of, MoleculeType, ReactionType};
use crate::particle::{Molecule, Velocity};
use crate::random::RandomSource;
use crate::spawn::{is_product, molecule_dims, product_molecule, room_for_molecule, Spawn};

verus! {

/// What the pairwise scan works on: the molecules, the creations it has
/// queued, the power, and the unlocked kinds.
pub struct ScanState {
    pub molecules: Seq<Molecule>,
    pub spawns: Seq<Spawn>,
    pub power: int,
    pub unlocked: Set<MoleculeType>,
}

/// Every molecule is well formed, of molecule size, inside `reactor`.
pub open spec fn settled(ms: Seq<Molecule>, reactor: Reactor) -> bool {
    forall|k: int|
        0 <= k < ms.len() ==> (#[trigger] ms[k]).wf(reactor) && ms[k].dimensions
            == molecule_dims()
}

/// Every queued creation starts inside `reactor`.
pub open spec fn spawns_inside(sp: Seq<Spawn>, reactor: Reactor) -> bool {
    forall|k: int| 0 <= k < sp.len() ==> reactor.holds((#[trigger] sp[k]).origin, molecule_dims())
}

/// The creations a reaction queues at `origin`, scattered when there are
/// several.
pub open spec fn spawns_for(r: ReactionType, origin: Vec2) -> Seq<Spawn> {
    products_of(r).map_values(
        |t: MoleculeType| Spawn { variant: t, origin, jitter: products_of(r).len() > 1 },
    )
}

/// The unlocked kinds after discovering `ts`, in order.
pub open spec fn unlock_all(u: Set<MoleculeType>, ts: Seq<MoleculeType>) -> Set<MoleculeType>
    decreases ts.len(),
{
    if ts.len() == 0 {
        u
    } else {
        unlock_all(u, ts.drop_last()).insert(ts.last())
    }
}

/// Resolves the pair `i`, `j`: molecules already consumed are skipped, and
/// so are pairs that do not touch; a pair that reacts is consumed, queues
/// its products at the first molecule's position, adds the reaction's
/// power and unlocks the products; any other pair bounces and is set apart.
pub open spec fn pair_step(s: ScanState, i: int, j: int, reactor: Reactor) -> ScanState {
    let a = s.molecules[i];
    let b = s.molecules[j];
    if a.reacted || b.reacted || !touching(a, b) {
        s
    } else {
        match reaction_of(a.variant, b.variant) {
            Some(r) => ScanState {
                molecules: s.molecules.update(i, a.with_reacted()).update(j, b.with_reacted()),
                spawns: s.spawns + spawns_for(r, a.position),
                power: clamp(s.power + power_of(r), 0, MAX_POWER as int),
                unlocked: unlock_all(s.unlocked, products_of(r)),
            },
            None => {
                let v = bounce_spec(a, b);
                let p = separate_spec(a, b, reactor);
                ScanState {
                    molecules: s.molecules.update(i, a.with_motion(p.0, v.0)).update(
                        j,
                        b.with_motion(p.1, v.1),
                    ),
                    ..s
                }
            },
        }
    }
}

/// Resolves the pairs `(i, j)`, `(i, j + 1)`, ... `(i, n - 1)` in turn.
pub open spec fn scan_row(s: ScanState, i: int, j: int, n: int, reactor: Reactor) -> ScanState
    decreases n - j,
{
    if j >= n {
        s
    } else {
        scan_row(pair_step(s, i, j, reactor), i, j + 1, n, reactor)
    }
}

/// Resolves every pair whose first index is `i` or more, in index order.
pub open spec fn scan_from(s: ScanState, i: int, n: int, reactor: Reactor) -> ScanState
    decreases n - i,
{
    if i >= n {
        s
    } else {
        scan_from(scan_row(s, i, i + 1, n, reactor), i + 1, n, reactor)
    }
}

/// The whole pairwise scan of `ms`, from no queued creation.
pub open spec fn scan_spec(ms: Seq<Molecule>, power: int, unlocked: Set<MoleculeType>, reactor: Reactor) -> ScanState {
    scan_from(
        ScanState { molecules: ms, spawns: Seq::empty(), power, unlocked },
        0,
        ms.len() as int,
        reactor,
    )
}

pub open spec fn state_of(ms: &Vec<Molecule>, sp: &Vec<Spawn>, power: u64, u: &Unlocked) -> ScanState {
    ScanState { molecules: ms@, spawns: sp@, power: power as int, unlocked: u@ }
}

/// Resolves the pair `i`, `j` of `ms`.
fn resolve_pair(
    ms: &mut Vec<Molecule>,
    spawns: &mut Vec<Spawn>,
    power: &mut u64,
    unlocked: &mut Unlocked,
    i: usize,
    j: usize,
    reactor: &Reactor,
)
    requires
        i < j < old(ms).len(),
        room_for_molecule(*reactor),
        settled(old(ms)@, *reactor),
        spawns_inside(old(spawns)@, *reactor),
        *old(power) <= MAX_POWER,
    ensures
        state_of(final(ms), final(spawns), *final(power), final(unlocked)) == pair_step(
            state_of(old(ms), old(spawns), *old(power), old(unlocked)),
            i as int,
            j as int,
            *reactor,
        ),
        final(ms).len() == old(ms).len(),
        settled(final(ms)@, *reactor),
        spawns_inside(final(spawns)@, *reactor),
        *final(power) <= MAX_POWER,
{
    let a = ms[i];
    let b = ms[j];
    assert(a.wf(*reactor) && b.wf(*reactor));
    if a.reacted || b.reacted {
        return;
    }
    let ox = a.position.x as i128 - b.position.x as i128;
    let oy = a.position.y as i128 - b.position.y as i128;
    let rr = COLLISION_RADIUS as i128;
    proof {
        crate::particle::lemma_held_bounds(*reactor, a.position, a.dimensions);
        crate::particle::lemma_held_bounds(*reactor, b.position, b.dimensions);
    }
    assert(0 <= ox * ox <= 16_000_000_000_000_000_000_000_000) by (nonlinear_arith)
        requires
            -4_000_000_000_000 <= ox <= 4_000_000_000_000,
    ;
    assert(0 <= oy * oy <= 16_000_000_000_000_000_000_000_000) by (nonlinear_arith)
        requires
            -4_000_000_000_000 <= oy <= 4_000_000_000_000,
    ;
    let sx = ox * ox;
    let sy = oy * oy;
    if sx + sy > rr * rr {
        return;
    }
    match ReactionType::classify(a.variant, b.variant) {
        Some(rt) => {
            let reaction = rt.entry();
            ms.set(i, Molecule { reacted: true, ..a });
            ms.set(j, Molecule { reacted: true, ..b });
            let multi = reaction.products.len() > 1;
            let ghost sp0 = spawns@;
            let ghost u0 = unlocked@;
            let ghost ps = products_of(rt);
            let mut k: usize = 0;
            while k < reaction.products.len()
                invariant
                    reaction.is_entry(rt),
                    ps == products_of(rt),
                    multi == (ps.len() > 1),
                    0 <= k <= ps.len(),
                    reactor.holds(a.position, molecule_dims()),
                    spawns_inside(sp0, *reactor),
                    spawns@ == sp0 + spawns_for(rt, a.position).take(k as int),
                    unlocked@ == unlock_all(u0, ps.take(k as int)),
                decreases ps.len() - k,
            {
                let t = reaction.products[k];
                spawns.push(Spawn { variant: t, origin: a.position, jitter: multi });
                unlocked.unlock(t);
                proof {
                    assert(spawns@ =~= sp0 + spawns_for(rt, a.position).take(k + 1));
                    assert(ps.take(k + 1).drop_last() =~= ps.take(k as int));
                }
                k = k + 1;
            }
            proof {
                assert(spawns_for(rt, a.position).take(k as int) =~= spawns_for(rt, a.position));
                assert(ps.take(k as int) =~= ps);
            }
            let np = *power as i64 + reaction.power_generated;
            *power = if np < 0 {
                0
            } else if np > MAX_POWER as i64 {
                MAX_POWER
            } else {
                np as u64
            };
        },
        None => {
            let (va, vb) = bounce(&a, &b);
            let (pa, pb) = separate(&a, &b, reactor);
            ms.set(i, Molecule { position: pa, velocity: crate::particle::Velocity { val: va }, ..a });
            ms.set(j, Molecule { position: pb, velocity: crate::particle::Velocity { val: vb }, ..b });
        },
    }
}

/// Runs the pairwise scan over `ms` and returns the queued creations.
pub fn scan(ms: &mut Vec<Molecule>, power: &mut u64, unlocked: &mut Unlocked, reactor: &Reactor) -> (spawns: Vec<Spawn>)
    requires
        room_for_molecule(*reactor),
        settled(old(ms)@, *reactor),
        *old(power) <= MAX_POWER,
    ensures
        state_of(final(ms), &spawns, *final(power), final(unlocked)) == scan_spec(
            old(ms)@,
            *old(power) as int,
            old(unlocked)@,
            *reactor,
        ),
        final(ms).len() == old(ms).len(),
        settled(final(ms)@, *reactor),
        spawns_inside(spawns@, *reactor),
        *final(power) <= MAX_POWER,
{
    let mut spawns: Vec<Spawn> = Vec::new();
    let n = ms.len();
    let ghost goal = scan_spec(old(ms)@, *old(power) as int, old(unlocked)@, *reactor);
    assert(state_of(ms, &spawns, *power, unlocked) == ScanState {
        molecules: old(ms)@,
        spawns: Seq::empty(),
        power: *old(power) as int,
        unlocked: old(unlocked)@,
    });
    let mut i: usize = 0;
    while i < n
        invariant
            n == ms.len(),
            0 <= i <= n,
            room_for_molecule(*reactor),
            settled(ms@, *reactor),
            spawns_inside(spawns@, *reactor),
            *power <= MAX_POWER,
            scan_from(state_of(ms, &spawns, *power, unlocked), i as int, n as int, *reactor) == goal,
        decreases n - i,
    {
        let mut j: usize = i + 1;
        while j < n
            invariant
                n == ms.len(),
                0 <= i < n,
                i + 1 <= j <= n,
                room_for_molecule(*reactor),
                settled(ms@, *reactor),
                spawns_inside(spawns@, *reactor),
                *power <= MAX_POWER,
                scan_from(
                    scan_row(state_of(ms, &spawns, *power, unlocked), i as int, j as int, n as int, *reactor),
                    i + 1,
                    n as int,
                    *reactor,
                ) == goal,
            decreases n - j,
        {
            resolve_pair(ms, &mut spawns, power, unlocked, i, j, reactor);
            j = j + 1;
        }
        i = i + 1;
    }
    spawns
}

/// One axis of a move: the new coordinate, the new velocity and the
/// momentum given to the wall. A move that would leave the reactor is
/// refused and the velocity reflected, giving `|2 v m|` to the wall.
pub open spec fn axis_spec(p: int, v: int, s: int, c: int, size: int, mass: int) -> (int, int, int) {
    if inside_axis(p + v, s, c, size) {
        (p + v, v, 0)
    } else {
        (p, -v, 2 * abs(v) * mass / 1000)
    }
}

/// A molecule after one tick of motion, held inside the reactor, and the
/// momentum it gave to the walls.
pub open spec fn integrate_spec(m: Molecule, reactor: Reactor) -> (Molecule, int) {
    let ax = axis_spec(
        m.position.x as int,
        m.velocity.val.x as int,
        m.dimensions.x_size as int,
        reactor.center.x as int,
        reactor.dimensions.x_size as int,
        m.mass as int,
    );
    let ay = axis_spec(
        m.position.y as int,
        m.velocity.val.y as int,
        m.dimensions.y_size as int,
        reactor.center.y as int,
        reactor.dimensions.y_size as int,
        m.mass as int,
    );
    (
        m.with_motion(
            reactor.clamp_spec(Vec2 { x: ax.0 as i64, y: ay.0 as i64 }, m.dimensions),
            Vec2 { x: ax.1 as i64, y: ay.1 as i64 },
        ),
        ax.2 + ay.2,
    )
}

/// The molecules after one tick of motion.
pub open spec fn integrate_all(ms: Seq<Molecule>, reactor: Reactor) -> Seq<Molecule> {
    ms.map_values(|m: Molecule| integrate_spec(m, reactor).0)
}

/// The momentum all of `ms` give to the walls in one tick of motion.
pub open spec fn impulse_total(ms: Seq<Molecule>, reactor: Reactor) -> int
    decreases ms.len(),
{
    if ms.len() == 0 {
        0
    } else {
        impulse_total(ms.drop_last(), reactor) + integrate_spec(ms.last(), reactor).1
    }
}

/// The molecules not consumed by a reaction, in order.
pub open spec fn unreacted(ms: Seq<Molecule>) -> Seq<Molecule>
    decreases ms.len(),
{
    if ms.len() == 0 {
        ms
    } else if ms.last().reacted {
        unreacted(ms.drop_last())
    } else {
        unreacted(ms.drop_last()).push(ms.last())
    }
}

/// The largest momentum one molecule gives in a tick.
pub const IMPULSE_LIMIT: u128 = 0x4_0000_0000;

fn axis_move(p: i64, v: i64, s: i64, c: i64, size: i64, mass: u64) -> (r: (i64, i64, u128))
    requires
        -crate::geometry::COORD_LIMIT <= c <= crate::geometry::COORD_LIMIT,
        0 <= s <= size <= crate::geometry::COORD_LIMIT,
        inside_axis(p as int, s as int, c as int, size as int),
        -SPEED_LIMIT <= v <= SPEED_LIMIT,
        mass <= 3200,
    ensures
        (r.0 as int, r.1 as int, r.2 as int) == axis_spec(p as int, v as int, s as int, c as int, size as int, mass as int),
        r.2 <= IMPULSE_LIMIT,
        -SPEED_LIMIT <= r.1 <= SPEED_LIMIT,
{
    let t = p + v;
    let d = t - c;
    let ad = if d < 0 { -d } else { d };
    if 2 * ad <= size - s {
        (t, v, 0)
    } else {
        let av = if v < 0 { -v } else { v };
        assert(2 * (av as u128) * (mass as u128) <= 1000 * IMPULSE_LIMIT) by (nonlinear_arith)
            requires
                0 <= av <= SPEED_LIMIT,
                mass <= 3200,
        ;
        let imp = 2 * (av as u128) * (mass as u128) / 1000;
        (p, -v, imp)
    }
}

/// Moves one molecule for a tick; returns the momentum it gave the walls.
pub fn integrate(m: &Molecule, reactor: &Reactor) -> (r: (Molecule, u128))
    requires
        reactor.wf(),
        m.wf(*reactor),
    ensures
        (r.0, r.1 as int) == integrate_spec(*m, *reactor),
        r.0.wf(*reactor),
        r.1 <= 2 * IMPULSE_LIMIT,
{
    let ax = axis_move(
        m.position.x,
        m.velocity.val.x,
        m.dimensions.x_size,
        reactor.center.x,
        reactor.dimensions.x_size,
        m.mass,
    );
    let ay = axis_move(
        m.position.y,
        m.velocity.val.y,
        m.dimensions.y_size,
        reactor.center.y,
        reactor.dimensions.y_size,
        m.mass,
    );
    let pos = reactor.clamp_position(Vec2 { x: ax.0, y: ay.0 }, m.dimensions);
    (Molecule { position: pos, velocity: Velocity { val: Vec2 { x: ax.1, y: ay.1 } }, ..*m }, ax.2 + ay.2)
}

/// Moves every molecule for a tick; returns the momentum they gave the
/// walls.
pub fn integrate_molecules(ms: &mut Vec<Molecule>, reactor: &Reactor) -> (dm: u128)
    requires
        room_for_molecule(*reactor),
        settled(old(ms)@, *reactor),
    ensures
        final(ms)@ == integrate_all(old(ms)@, *reactor),
        dm == impulse_total(old(ms)@, *reactor),
        settled(final(ms)@, *reactor),
        dm <= 2 * IMPULSE_LIMIT * old(ms).len(),
{
    let ghost ms0 = ms@;
    let n = ms.len();
    let mut dm: u128 = 0;
    let mut k: usize = 0;
    while k < n
        invariant
            n == ms.len() == ms0.len(),
            0 <= k <= n,
            room_for_molecule(*reactor),
            settled(ms0, *reactor),
            forall|q: int| k <= q < n ==> ms@[q] == ms0[q],
            forall|q: int| 0 <= q < k ==> ms@[q] == integrate_spec(#[trigger] ms0[q], *reactor).0,
            forall|q: int| 0 <= q < k ==> (#[trigger] ms@[q]).wf(*reactor) && ms@[q].dimensions == molecule_dims(),
            dm == impulse_total(ms0.take(k as int), *reactor),
            dm <= 2 * IMPULSE_LIMIT * k,
        decreases n - k,
    {
        assert(ms0[k as int].wf(*reactor));
        let (m, imp) = integrate(&ms[k], reactor);
        ms.set(k, m);
        proof {
            assert(ms0.take(k + 1).drop_last() =~= ms0.take(k as int));
            assert(dm + imp <= 2 * IMPULSE_LIMIT * (k + 1) <= 2 * IMPULSE_LIMIT * 0x1_0000_0000_0000_0000) by (nonlinear_arith)
                requires
                    dm <= 2 * IMPULSE_LIMIT * k,
                    imp <= 2 * IMPULSE_LIMIT,
                    k < 0xffff_ffff_ffff_ffff,
            ;
        }
        dm = dm + imp;
        k = k + 1;
    }
    assert(ms@ =~= integrate_all(ms0, *reactor));
    assert(ms0.take(n as int) =~= ms0);
    dm
}

/// Drops the consumed molecules and creates the queued ones after them.
pub fn apply_spawns(ms: &Vec<Molecule>, spawns: &Vec<Spawn>, reactor: &Reactor, rng: &mut RandomSource) -> (r: Vec<Molecule>)
    requires
        room_for_molecule(*reactor),
        settled(ms@, *reactor),
        spawns_inside(spawns@, *reactor),
        old(rng).wf(),
    ensures
        final(rng).wf(),
        r@.len() == unreacted(ms@).len() + spawns@.len(),
        r@.take(unreacted(ms@).len() as int) == unreacted(ms@),
        forall|k: int|
            0 <= k < spawns@.len() ==> is_product(
                #[trigger] r@[unreacted(ms@).len() + k],
                spawns@[k],
                *reactor,
            ),
        settled(r@, *reactor),
        forall|k: int| 0 <= k < r@.len() ==> !(#[trigger] r@[k]).reacted,
{
    let mut out: Vec<Molecule> = Vec::new();
    let mut k: usize = 0;
    while k < ms.len()
        invariant
            0 <= k <= ms.len(),
            settled(ms@, *reactor),
            out@ == unreacted(ms@.take(k as int)),
            settled(out@, *reactor),
            forall|q: int| 0 <= q < out@.len() ==> !(#[trigger] out@[q]).reacted,
        decreases ms.len() - k,
    {
        proof {
            assert(ms@.take(k + 1).drop_last() =~= ms@.take(k as int));
        }
        let m = ms[k];
        if !m.reacted {
            out.push(m);
        }
        k = k + 1;
    }
    assert(ms@.take(ms.len() as int) =~= ms@);
    let ghost kept = out@;
    let mut s: usize = 0;
    while s < spawns.len()
        invariant
            0 <= s <= spawns.len(),
            room_for_molecule(*reactor),
            spawns_inside(spawns@, *reactor),
            rng.wf(),
            out@.len() == kept.len() + s,
            out@.take(kept.len() as int) == kept,
            forall|q: int| 0 <= q < s ==> is_product(#[trigger] out@[kept.len() + q], spawns@[q], *reactor),
            settled(out@, *reactor),
            forall|q: int| 0 <= q < out@.len() ==> !(#[trigger] out@[q]).reacted,
        decreases spawns.len() - s,
    {
        let sp = spawns[s];
        assert(reactor.holds(spawns@[s as int].origin, molecule_dims()));
        let m = product_molecule(sp, reactor, rng);
        let ghost before = out@;
        out.push(m);
        proof {
            assert(out@.take(kept.len() as int) =~= before.take(kept.len() as int));
            assert forall|q: int| 0 <= q < s + 1 implies is_product(#[trigger] out@[kept.len() + q], spawns@[q], *reactor) by {
                if q < s {
                    assert(out@[kept.len() + q] == before[kept.len() + q]);
                }
            }
        }
        s = s + 1;
    }
    out
}

} // verus!
