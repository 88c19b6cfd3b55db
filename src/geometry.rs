use vstd::prelude::*;

verus! {

/// Thousandths per unit: every length, speed, mass, power and pressure of
/// the library is a whole number of thousandths.
pub const UNIT: i64 = 1000;

/// Largest coordinate magnitude and reactor size the library accepts.
pub const COORD_LIMIT: i64 = 1_000_000_000_000;

/// Largest magnitude of a velocity component, in thousandths per tick.
pub const SPEED_LIMIT: i64 = 1_000_000_000;

/// A point or displacement in the plane, in thousandths of a unit.
#[derive(Debug, Clone, Copy, PartialEq, Eq, Structural)]
pub struct Vec2 {
    pub x: i64,
    pub y: i64,
}

/// Full width and height of a box, in thousandths of a unit.
#[derive(Debug, Clone, Copy, PartialEq, Eq, Structural)]
pub struct Dimensions {
    pub x_size: i64,
    pub y_size: i64,
}

/// The rectangular volume that holds the molecules.
#[derive(Debug, Clone, Copy, PartialEq, Eq, Structural)]
pub struct Reactor {
    pub center: Vec2,
    pub dimensions: Dimensions,
}

pub open spec fn abs(v: int) -> int {
    if v < 0 {
        -v
    } else {
        v
    }
}

pub open spec fn clamp(v: int, lo: int, hi: int) -> int {
    if v < lo {
        lo
    } else if v > hi {
        hi
    } else {
        v
    }
}

/// Division that rounds toward zero, as machine division does.
pub open spec fn div_trunc(a: int, b: int) -> int {
    if a >= 0 {
        a / b
    } else {
        -((-a) / b)
    }
}

/// Along one axis, a box of size `s` centred at `p` lies inside one of
/// size `size` centred at `c`.
pub open spec fn inside_axis(p: int, s: int, c: int, size: int) -> bool {
    2 * abs(p - c) <= size - s
}

/// The nearest coordinate to `p` at which a box of size `s` lies inside.
pub open spec fn clamp_axis(p: int, s: int, c: int, size: int) -> int {
    clamp(p, c - (size - s) / 2, c + (size - s) / 2)
}

impl Dimensions {
    pub open spec fn fits_in(self, outer: Dimensions) -> bool {
        &&& 0 <= self.x_size <= outer.x_size
        &&& 0 <= self.y_size <= outer.y_size
    }
}

impl Reactor {
    /// Coordinates and sizes are within the limits the arithmetic allows.
    pub open spec fn wf(self) -> bool {
        &&& -COORD_LIMIT <= self.center.x <= COORD_LIMIT
        &&& -COORD_LIMIT <= self.center.y <= COORD_LIMIT
        &&& 0 <= self.dimensions.x_size <= COORD_LIMIT
        &&& 0 <= self.dimensions.y_size <= COORD_LIMIT
    }

    /// A box of size `size` centred at `pos` lies inside the reactor.
    pub open spec fn holds(self, pos: Vec2, size: Dimensions) -> bool {
        &&& inside_axis(pos.x as int, size.x_size as int, self.center.x as int, self.dimensions.x_size as int)
        &&& inside_axis(pos.y as int, size.y_size as int, self.center.y as int, self.dimensions.y_size as int)
    }

    pub open spec fn clamp_spec(self, pos: Vec2, size: Dimensions) -> Vec2 {
        Vec2 {
            x: clamp_axis(pos.x as int, size.x_size as int, self.center.x as int, self.dimensions.x_size as int) as i64,
            y: clamp_axis(pos.y as int, size.y_size as int, self.center.y as int, self.dimensions.y_size as int) as i64,
        }
    }

    /// Moves a box of size `size` at `pos` to the nearest position inside
    /// the reactor, axis by axis.
    pub fn clamp_position(&self, pos: Vec2, size: Dimensions) -> (r: Vec2)
        requires
            self.wf(),
            size.fits_in(self.dimensions),
            -4 * COORD_LIMIT <= pos.x <= 4 * COORD_LIMIT,
            -4 * COORD_LIMIT <= pos.y <= 4 * COORD_LIMIT,
        ensures
            r == self.clamp_spec(pos, size),
            self.holds(r, size),
            self.holds(pos, size) ==> r == pos,
    {
        let x = clamp_coord(pos.x, size.x_size, self.center.x, self.dimensions.x_size);
        let y = clamp_coord(pos.y, size.y_size, self.center.y, self.dimensions.y_size);
        Vec2 { x, y }
    }
}

fn clamp_coord(p: i64, s: i64, c: i64, size: i64) -> (r: i64)
    requires
        -COORD_LIMIT <= c <= COORD_LIMIT,
        0 <= s <= size <= COORD_LIMIT,
        -4 * COORD_LIMIT <= p <= 4 * COORD_LIMIT,
    ensures
        r == clamp_axis(p as int, s as int, c as int, size as int),
        inside_axis(r as int, s as int, c as int, size as int),
        inside_axis(p as int, s as int, c as int, size as int) ==> r == p,
{
    let half = (size - s) / 2;
    let lo = c - half;
    let hi = c + half;
    if p < lo {
        lo
    } else if p > hi {
        hi
    } else {
        p
    }
}

/// Integer square root: the largest `r` with `r * r <= n`.
pub fn isqrt(n: u64) -> (r: u64)
    requires
        n < 0x100_0000_0000,
    ensures
        r * r <= n < (r + 1) * (r + 1),
{
    let mut lo: u64 = 0;
    let mut hi: u64 = 0x10_0000;
    assert(hi * hi > n) by (nonlinear_arith)
        requires
            hi == 0x10_0000,
            n < 0x100_0000_0000,
    ;
    while lo + 1 < hi
        invariant
            lo < hi <= 0x10_0000,
            lo * lo <= n,
            n < hi * hi,
        decreases hi - lo,
    {
        let mid = lo + (hi - lo) / 2;
        assert(mid * mid <= 0x100_0000_0000) by (nonlinear_arith)
            requires
                mid <= 0x10_0000,
        ;
        if mid * mid <= n {
            lo = mid;
        } else {
            hi = mid;
        }
    }
    lo
}

} // verus!
