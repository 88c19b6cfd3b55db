use vstd::prelude::*;
use crate::geometry::{abs, Dimensions, Reactor, Vec2, SPEED_LIMIT};
use crate::molecule::{mass_of, MoleculeType};

verus! {

/// Width and height of every molecule, in thousandths of a unit.
pub const MOLECULE_SIZE: i64 = 32_000;

/// A velocity, in thousandths of a unit per tick.
#[derive(Debug, Clone, Copy, PartialEq, Eq, Structural)]
pub struct Velocity {
    pub val: Vec2,
}

/// One live particle of the reactor.
#[derive(Debug, Clone, Copy, PartialEq, Eq, Structural)]
pub struct Molecule {
    pub variant: MoleculeType,
    /// Mass in thousandths of a unit.
    pub mass: u64,
    /// Set once the molecule has been consumed by a reaction this tick.
    pub reacted: bool,
    pub position: Vec2,
    pub velocity: Velocity,
    pub dimensions: Dimensions,
    /// Current animation frame.
    pub frame: usize,
}

pub open spec fn speed_ok(v: Vec2) -> bool {
    &&& -SPEED_LIMIT <= v.x <= SPEED_LIMIT
    &&& -SPEED_LIMIT <= v.y <= SPEED_LIMIT
}

impl Molecule {
    /// The molecule is consistent and lies inside `reactor`.
    pub open spec fn wf(self, reactor: Reactor) -> bool {
        &&& self.mass == mass_of(self.variant)
        &&& self.dimensions.fits_in(reactor.dimensions)
        &&& reactor.holds(self.position, self.dimensions)
        &&& speed_ok(self.velocity.val)
        &&& self.frame < 8
    }

    pub open spec fn with_motion(self, position: Vec2, velocity: Vec2) -> Molecule {
        Molecule { position, velocity: Velocity { val: velocity }, ..self }
    }

    pub open spec fn with_reacted(self) -> Molecule {
        Molecule { reacted: true, ..self }
    }
}

/// A contained position lies within twice the coordinate limit.
pub proof fn lemma_held_bounds(reactor: Reactor, pos: Vec2, size: Dimensions)
    requires
        reactor.wf(),
        size.fits_in(reactor.dimensions),
        reactor.holds(pos, size),
    ensures
        abs(pos.x - reactor.center.x) <= crate::geometry::COORD_LIMIT / 2,
        abs(pos.y - reactor.center.y) <= crate::geometry::COORD_LIMIT / 2,
{
}

} // verus!
