use vstd::prelude::*;
use crate::geometry::{abs, clamp, div_trunc, isqrt, Reactor, Vec2, SPEED_LIMIT};
use crate::particle::{speed_ok, Molecule};

verus! {

/// Two molecules whose centres are at most this far apart touch.
pub const COLLISION_RADIUS: i64 = 32_000;

/// Distance at which two bouncing molecules are set apart (1.01 radii).
pub const SEPARATION: i64 = 32_320;

pub open spec fn dist2(ox: int, oy: int) -> int {
    ox * ox + oy * oy
}

/// Offset from `b` to `a`, along x and y.
pub open spec fn off_x(a: Molecule, b: Molecule) -> int {
    a.position.x - b.position.x
}

pub open spec fn off_y(a: Molecule, b: Molecule) -> int {
    a.position.y - b.position.y
}

pub open spec fn touching(a: Molecule, b: Molecule) -> bool {
    dist2(off_x(a, b), off_y(a, b)) <= COLLISION_RADIUS * COLLISION_RADIUS
}

pub open spec fn cap_speed(v: int) -> int {
    clamp(v, -SPEED_LIMIT as int, SPEED_LIMIT as int)
}

/// Velocities after an elastic bounce of `a` and `b`: with offset `o`,
/// relative velocity `rv` and `j = (rv . o) / (|o|^2 (ma + mb))`,
/// `va - 2 mb j o` and `vb + 2 ma j o`, each component rounded toward zero
/// and capped at the speed limit. Coincident molecules keep their velocities.
pub open spec fn bounce_spec(a: Molecule, b: Molecule) -> (Vec2, Vec2) {
    let ox = off_x(a, b);
    let oy = off_y(a, b);
    let s = dist2(ox, oy);
    let dot = (a.velocity.val.x - b.velocity.val.x) * ox + (a.velocity.val.y - b.velocity.val.y)
        * oy;
    let den = s * (a.mass + b.mass);
    if s == 0 {
        (a.velocity.val, b.velocity.val)
    } else {
        (
            Vec2 {
                x: cap_speed(a.velocity.val.x - div_trunc(2 * b.mass * dot * ox, den)) as i64,
                y: cap_speed(a.velocity.val.y - div_trunc(2 * b.mass * dot * oy, den)) as i64,
            },
            Vec2 {
                x: cap_speed(b.velocity.val.x + div_trunc(2 * a.mass * dot * ox, den)) as i64,
                y: cap_speed(b.velocity.val.y + div_trunc(2 * a.mass * dot * oy, den)) as i64,
            },
        )
    }
}

pub open spec fn is_sqrt_floor(n: int, r: int) -> bool {
    0 <= r && r * r <= n < (r + 1) * (r + 1)
}

/// The integer square root of `n`.
pub open spec fn sqrt_floor(n: int) -> int {
    choose|r: int| is_sqrt_floor(n, r)
}

/// Target offset after separating: `SEPARATION` along the old offset, or
/// along the x axis when the molecules coincide.
pub open spec fn target_offset(ox: int, oy: int) -> (int, int) {
    let d = sqrt_floor(dist2(ox, oy));
    if d == 0 {
        (SEPARATION as int, 0)
    } else {
        (div_trunc(ox * SEPARATION, d), div_trunc(oy * SEPARATION, d))
    }
}

/// Positions after pushing `a` and `b` apart to the target offset, the
/// correction split between the two, each then held inside the reactor.
pub open spec fn separate_spec(a: Molecule, b: Molecule, reactor: Reactor) -> (Vec2, Vec2) {
    let ox = off_x(a, b);
    let oy = off_y(a, b);
    let t = target_offset(ox, oy);
    let cx = t.0 - ox;
    let cy = t.1 - oy;
    let hx = div_trunc(cx, 2);
    let hy = div_trunc(cy, 2);
    (
        reactor.clamp_spec(
            Vec2 { x: (a.position.x + hx) as i64, y: (a.position.y + hy) as i64 },
            a.dimensions,
        ),
        reactor.clamp_spec(
            Vec2 { x: (b.position.x - (cx - hx)) as i64, y: (b.position.y - (cy - hy)) as i64 },
            b.dimensions,
        ),
    )
}

proof fn lemma_sqrt_unique(n: int, r1: int, r2: int)
    requires
        0 <= r1,
        0 <= r2,
        r1 * r1 <= n < (r1 + 1) * (r1 + 1),
        r2 * r2 <= n < (r2 + 1) * (r2 + 1),
    ensures
        r1 == r2,
{
    if r1 < r2 {
        assert((r1 + 1) * (r1 + 1) <= r2 * r2) by (nonlinear_arith)
            requires
                0 <= r1 < r2,
        ;
    } else if r2 < r1 {
        assert((r2 + 1) * (r2 + 1) <= r1 * r1) by (nonlinear_arith)
            requires
                0 <= r2 < r1,
        ;
    }
}

proof fn lemma_component_bound(x: int, y: int, r: int)
    requires
        0 <= r,
        x * x + y * y <= r * r,
    ensures
        abs(x) <= r,
        abs(y) <= r,
{
    assert(y * y >= 0) by (nonlinear_arith);
    assert(x * x >= 0) by (nonlinear_arith);
    if abs(x) > r {
        assert(x * x > r * r) by (nonlinear_arith)
            requires
                abs(x) > r,
                0 <= r,
        ;
    }
    if abs(y) > r {
        assert(y * y > r * r) by (nonlinear_arith)
            requires
                abs(y) > r,
                0 <= r,
        ;
    }
}

proof fn lemma_square_bound(x: int, y: int)
    ensures
        0 <= x * x <= x * x + y * y,
        0 <= y * y <= x * x + y * y,
{
    assert(x * x >= 0 && y * y >= 0) by (nonlinear_arith);
}

fn div_trunc_exec(a: i128, b: i128) -> (r: i128)
    requires
        b > 0,
        a > i128::MIN,
    ensures
        r == div_trunc(a as int, b as int),
        abs(r as int) <= abs(a as int),
{
    if a >= 0 {
        assert(a / b <= a) by (nonlinear_arith)
            requires
                a >= 0,
                b > 0,
        ;
        a / b
    } else {
        let na = -a;
        assert(na / b <= na) by (nonlinear_arith)
            requires
                na >= 0,
                b > 0,
        ;
        -(na / b)
    }
}

fn cap_speed_exec(v: i128) -> (r: i64)
    ensures
        r == cap_speed(v as int),
{
    if v < -(SPEED_LIMIT as i128) {
        -SPEED_LIMIT
    } else if v > SPEED_LIMIT as i128 {
        SPEED_LIMIT
    } else {
        v as i64
    }
}

const IMPULSE_BOUND: i128 = 100_000_000_000_000_000_000_000;

/// New velocities of two touching molecules that bounce off each other.
pub fn bounce(a: &Molecule, b: &Molecule) -> (r: (Vec2, Vec2))
    requires
        touching(*a, *b),
        speed_ok(a.velocity.val),
        speed_ok(b.velocity.val),
        0 < a.mass <= 3200,
        0 < b.mass <= 3200,
    ensures
        r == bounce_spec(*a, *b),
        speed_ok(r.0),
        speed_ok(r.1),
{
    let ox = a.position.x as i128 - b.position.x as i128;
    let oy = a.position.y as i128 - b.position.y as i128;
    let rr = COLLISION_RADIUS as i128;
    proof {
        lemma_component_bound(ox as int, oy as int, rr as int);
        lemma_square_bound(ox as int, oy as int);
    }
    let s = ox * ox + oy * oy;
    if s == 0 {
        return (a.velocity.val, b.velocity.val);
    }
    let rvx = a.velocity.val.x as i128 - b.velocity.val.x as i128;
    let rvy = a.velocity.val.y as i128 - b.velocity.val.y as i128;
    assert(abs(rvx * ox) <= 2 * SPEED_LIMIT * COLLISION_RADIUS) by (nonlinear_arith)
        requires
            abs(rvx as int) <= 2 * SPEED_LIMIT,
            abs(ox as int) <= COLLISION_RADIUS,
    ;
    assert(abs(rvy * oy) <= 2 * SPEED_LIMIT * COLLISION_RADIUS) by (nonlinear_arith)
        requires
            abs(rvy as int) <= 2 * SPEED_LIMIT,
            abs(oy as int) <= COLLISION_RADIUS,
    ;
    let dot = rvx * ox + rvy * oy;
    let ma = a.mass as i128;
    let mb = b.mass as i128;
    assert(s * (ma + mb) > 0) by (nonlinear_arith)
        requires
            s > 0,
            ma + mb > 0,
    ;
    assert(s * (ma + mb) <= COLLISION_RADIUS * COLLISION_RADIUS * 6400) by (nonlinear_arith)
        requires
            0 < s <= COLLISION_RADIUS * COLLISION_RADIUS,
            0 < ma + mb <= 6400,
    ;
    let den = s * (ma + mb);
    assert(abs(2 * mb * dot) <= 6400 * 4 * SPEED_LIMIT * COLLISION_RADIUS) by (nonlinear_arith)
        requires
            abs(dot as int) <= 4 * SPEED_LIMIT * COLLISION_RADIUS,
            0 < mb <= 3200,
    ;
    assert(abs(2 * ma * dot) <= 6400 * 4 * SPEED_LIMIT * COLLISION_RADIUS) by (nonlinear_arith)
        requires
            abs(dot as int) <= 4 * SPEED_LIMIT * COLLISION_RADIUS,
            0 < ma <= 3200,
    ;
    let kb = 2 * mb * dot;
    let ka = 2 * ma * dot;
    assert(abs(kb * ox) <= IMPULSE_BOUND && abs(kb * oy) <= IMPULSE_BOUND && abs(ka * ox)
        <= IMPULSE_BOUND && abs(ka * oy) <= IMPULSE_BOUND) by (nonlinear_arith)
        requires
            abs(kb as int) <= 6400 * 4 * SPEED_LIMIT * COLLISION_RADIUS,
            abs(ka as int) <= 6400 * 4 * SPEED_LIMIT * COLLISION_RADIUS,
            abs(ox as int) <= COLLISION_RADIUS,
            abs(oy as int) <= COLLISION_RADIUS,
    ;
    let qax = div_trunc_exec(kb * ox, den);
    let qay = div_trunc_exec(kb * oy, den);
    let qbx = div_trunc_exec(ka * ox, den);
    let qby = div_trunc_exec(ka * oy, den);
    let va = Vec2 {
        x: cap_speed_exec(a.velocity.val.x as i128 - qax),
        y: cap_speed_exec(a.velocity.val.y as i128 - qay),
    };
    let vb = Vec2 {
        x: cap_speed_exec(b.velocity.val.x as i128 + qbx),
        y: cap_speed_exec(b.velocity.val.y as i128 + qby),
    };
    (va, vb)
}

/// New positions of two touching molecules pushed apart after a bounce;
/// both stay inside the reactor.
pub fn separate(a: &Molecule, b: &Molecule, reactor: &Reactor) -> (r: (Vec2, Vec2))
    requires
        touching(*a, *b),
        reactor.wf(),
        a.dimensions.fits_in(reactor.dimensions),
        b.dimensions.fits_in(reactor.dimensions),
        reactor.holds(a.position, a.dimensions),
        reactor.holds(b.position, b.dimensions),
    ensures
        r == separate_spec(*a, *b, *reactor),
        reactor.holds(r.0, a.dimensions),
        reactor.holds(r.1, b.dimensions),
{
    let ox = a.position.x - b.position.x;
    let oy = a.position.y - b.position.y;
    proof {
        lemma_component_bound(ox as int, oy as int, COLLISION_RADIUS as int);
        lemma_square_bound(ox as int, oy as int);
    }
    let s = ox * ox + oy * oy;
    assert(s >= 0) by (nonlinear_arith)
        requires
            s == ox * ox + oy * oy,
    ;
    let d = isqrt(s as u64);
    proof {
        let dd = sqrt_floor(s as int);
        assert(is_sqrt_floor(s as int, d as int));
        lemma_sqrt_unique(s as int, d as int, dd);
    }
    let (tx, ty) = if d == 0 {
        (SEPARATION, 0i64)
    } else {
        assert(abs(ox * SEPARATION) <= COLLISION_RADIUS * SEPARATION) by (nonlinear_arith)
            requires
                abs(ox as int) <= COLLISION_RADIUS,
        ;
        assert(abs(oy * SEPARATION) <= COLLISION_RADIUS * SEPARATION) by (nonlinear_arith)
            requires
                abs(oy as int) <= COLLISION_RADIUS,
        ;
        let tx = div_trunc_exec((ox * SEPARATION) as i128, d as i128);
        let ty = div_trunc_exec((oy * SEPARATION) as i128, d as i128);
        (tx as i64, ty as i64)
    };
    let cx = tx - ox;
    let cy = ty - oy;
    let hx = div_trunc_exec(cx as i128, 2) as i64;
    let hy = div_trunc_exec(cy as i128, 2) as i64;
    let pa = Vec2 { x: a.position.x + hx, y: a.position.y + hy };
    let pb = Vec2 { x: b.position.x - (cx - hx), y: b.position.y - (cy - hy) };
    (reactor.clamp_position(pa, a.dimensions), reactor.clamp_position(pb, b.dimensions))
}

} // verus!
