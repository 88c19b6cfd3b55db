use vstd::prelude::*;
use crate::geometry::{abs, clamp, Dimensions, Reactor, Vec2};
use crate::molecule::{mass_of, MoleculeType};
use crate::particle::{Molecule, Velocity, MOLECULE_SIZE};
use crate::random::RandomSource;

verus! {

/// Speed of a launched molecule of unit mass at full strength, in
/// thousandths per tick.
pub const LAUNCH_SPEED: i64 = 4000;

/// Products of a reaction with several products are scattered by up to
/// this much along each axis.
pub const JITTER: u64 = 1000;

/// A molecule to create once the pairwise scan is over.
#[derive(Debug, Clone, Copy, PartialEq, Eq, Structural)]
pub struct Spawn {
    pub variant: MoleculeType,
    pub origin: Vec2,
    pub jitter: bool,
}

pub open spec fn molecule_dims() -> Dimensions {
    Dimensions { x_size: MOLECULE_SIZE, y_size: MOLECULE_SIZE }
}

/// One launch velocity component from three draws: the first picks the
/// sign, the other two a strength `f` in `0..=1000` thousandths, and the
/// speed is `LAUNCH_SPEED * f / mass`, so lighter molecules move faster.
pub open spec fn launch_spec(sign: u32, strength: u32, spread: u32, mass: int) -> int {
    let f = clamp(abs(2 * (strength % 1000) - 1000) + spread % 1000 - 500, 0, 1000);
    let m = LAUNCH_SPEED * f / mass;
    if sign % 2 == 0 {
        -m
    } else {
        m
    }
}

pub open spec fn launch_vec(d: Seq<u32>, mass: int) -> Vec2 {
    Vec2 {
        x: launch_spec(d[0], d[1], d[2], mass) as i64,
        y: launch_spec(d[3], d[4], d[5], mass) as i64,
    }
}

/// `v` is the launch velocity of some six draws.
pub open spec fn launched(v: Vec2, mass: int) -> bool {
    exists|d: Seq<u32>| d.len() == 6 && v == #[trigger] launch_vec(d, mass)
}

/// The point of the reactor interior picked by draws `dx` and `dy`.
pub open spec fn interior_spec(reactor: Reactor, size: Dimensions, dx: u32, dy: u32) -> Vec2 {
    let hx = (reactor.dimensions.x_size - size.x_size) / 2;
    let hy = (reactor.dimensions.y_size - size.y_size) / 2;
    Vec2 {
        x: (reactor.center.x - hx + (dx as int) % (2 * hx + 1)) as i64,
        y: (reactor.center.y - hy + (dy as int) % (2 * hy + 1)) as i64,
    }
}

pub open spec fn placed(p: Vec2, reactor: Reactor, size: Dimensions) -> bool {
    exists|dx: u32, dy: u32| p == #[trigger] interior_spec(reactor, size, dx, dy)
}

/// The point `origin` moved by `jx`, `jy`, held inside the reactor.
pub open spec fn jitter_spec(origin: Vec2, jx: int, jy: int, reactor: Reactor, size: Dimensions) -> Vec2 {
    reactor.clamp_spec(Vec2 { x: (origin.x + jx) as i64, y: (origin.y + jy) as i64 }, size)
}

pub open spec fn jittered(p: Vec2, origin: Vec2, reactor: Reactor, size: Dimensions) -> bool {
    exists|jx: int, jy: int|
        0 <= jx < JITTER && 0 <= jy < JITTER && p == #[trigger] jitter_spec(
            origin,
            jx,
            jy,
            reactor,
            size,
        )
}

/// `m` is a fresh molecule created for `s`.
pub open spec fn is_product(m: Molecule, s: Spawn, reactor: Reactor) -> bool {
    &&& m.variant == s.variant
    &&& m.mass == mass_of(s.variant)
    &&& !m.reacted
    &&& m.frame == 0
    &&& m.dimensions == molecule_dims()
    &&& if s.jitter {
        jittered(m.position, s.origin, reactor, m.dimensions)
    } else {
        m.position == s.origin
    }
    &&& launched(m.velocity.val, m.mass as int)
    &&& m.wf(reactor)
}

/// `m` is a freshly bought molecule of kind `t`.
pub open spec fn is_purchase(m: Molecule, t: MoleculeType, reactor: Reactor) -> bool {
    &&& m.variant == t
    &&& m.mass == mass_of(t)
    &&& !m.reacted
    &&& m.dimensions == molecule_dims()
    &&& placed(m.position, reactor, m.dimensions)
    &&& launched(m.velocity.val, m.mass as int)
    &&& m.wf(reactor)
}

/// The reactor can hold a molecule.
pub open spec fn room_for_molecule(reactor: Reactor) -> bool {
    &&& reactor.wf()
    &&& molecule_dims().fits_in(reactor.dimensions)
}

/// One launch velocity component; see `launch_spec`.
pub fn launch_component(sign: u32, strength: u32, spread: u32, mass: u64) -> (r: i64)
    requires
        400 <= mass <= 3200,
    ensures
        r == launch_spec(sign, strength, spread, mass as int),
        -10_000 <= r <= 10_000,
{
    let s = (strength % 1000) as i64;
    let d = 2 * s - 1000;
    let ad = if d < 0 { -d } else { d };
    let raw = ad + (spread % 1000) as i64 - 500;
    let f = if raw < 0 { 0 } else if raw > 1000 { 1000 } else { raw };
    let m = (LAUNCH_SPEED * f) / mass as i64;
    assert(m <= 10_000) by (nonlinear_arith)
        requires
            m == (LAUNCH_SPEED * f) / mass as int,
            0 <= f <= 1000,
            400 <= mass,
    ;
    assert(m >= 0) by (nonlinear_arith)
        requires
            m == (LAUNCH_SPEED * f) / mass as int,
            0 <= f,
            400 <= mass,
    ;
    if sign % 2 == 0 {
        -m
    } else {
        m
    }
}

/// A launch velocity drawn from `rng` for a molecule of `mass`.
fn launch_velocity(mass: u64, rng: &mut RandomSource) -> (r: Vec2)
    requires
        400 <= mass <= 3200,
        old(rng).wf(),
    ensures
        final(rng).wf(),
        launched(r, mass as int),
        -10_000 <= r.x <= 10_000,
        -10_000 <= r.y <= 10_000,
{
    let d0 = rng.next_u32();
    let d1 = rng.next_u32();
    let d2 = rng.next_u32();
    let d3 = rng.next_u32();
    let d4 = rng.next_u32();
    let d5 = rng.next_u32();
    let r = Vec2 {
        x: launch_component(d0, d1, d2, mass),
        y: launch_component(d3, d4, d5, mass),
    };
    let ghost d = seq![d0, d1, d2, d3, d4, d5];
    assert(r == launch_vec(d, mass as int));
    r
}

/// A point of the reactor interior drawn from `rng`.
fn interior_point(reactor: &Reactor, size: Dimensions, rng: &mut RandomSource) -> (r: Vec2)
    requires
        reactor.wf(),
        size.fits_in(reactor.dimensions),
        old(rng).wf(),
    ensures
        final(rng).wf(),
        placed(r, *reactor, size),
        reactor.holds(r, size),
{
    let dx = rng.next_u32();
    let dy = rng.next_u32();
    let hx = (reactor.dimensions.x_size - size.x_size) / 2;
    let hy = (reactor.dimensions.y_size - size.y_size) / 2;
    let ox = (dx as u64 % (2 * hx as u64 + 1)) as i64;
    let oy = (dy as u64 % (2 * hy as u64 + 1)) as i64;
    let r = Vec2 { x: reactor.center.x - hx + ox, y: reactor.center.y - hy + oy };
    assert(r == interior_spec(*reactor, size, dx, dy));
    r
}

/// Creates a molecule for `spawn`, at its origin or scattered around it.
pub fn product_molecule(spawn: Spawn, reactor: &Reactor, rng: &mut RandomSource) -> (r: Molecule)
    requires
        room_for_molecule(*reactor),
        reactor.holds(spawn.origin, molecule_dims()),
        old(rng).wf(),
    ensures
        final(rng).wf(),
        is_product(r, spawn, *reactor),
{
    let dims = Dimensions { x_size: MOLECULE_SIZE, y_size: MOLECULE_SIZE };
    let position = if spawn.jitter {
        let jx = rng.next_u32() as u64 % JITTER;
        let jy = rng.next_u32() as u64 % JITTER;
        let p = reactor.clamp_position(
            Vec2 { x: spawn.origin.x + jx as i64, y: spawn.origin.y + jy as i64 },
            dims,
        );
        assert(p == jitter_spec(spawn.origin, jx as int, jy as int, *reactor, dims));
        p
    } else {
        spawn.origin
    };
    let mass = spawn.variant.mass();
    let val = launch_velocity(mass, rng);
    Molecule {
        variant: spawn.variant,
        mass,
        reacted: false,
        position,
        velocity: Velocity { val },
        dimensions: dims,
        frame: 0,
    }
}

/// Creates a bought molecule of kind `t` at a random point of the reactor.
pub fn add_molecule(t: MoleculeType, reactor: &Reactor, rng: &mut RandomSource) -> (r: Molecule)
    requires
        room_for_molecule(*reactor),
        old(rng).wf(),
    ensures
        final(rng).wf(),
        is_purchase(r, t, *reactor),
{
    let dims = Dimensions { x_size: MOLECULE_SIZE, y_size: MOLECULE_SIZE };
    let position = interior_point(reactor, dims, rng);
    let mass = t.mass();
    let val = launch_velocity(mass, rng);
    let frame = (rng.next_u32() % 8) as usize;
    Molecule { variant: t, mass, reacted: false, position, velocity: Velocity { val }, dimensions: dims, frame }
}

} // verus!
