//! Simulation core of a molecule reactor game: particles of a few kinds
//! bounce or react inside a rectangular reactor, feeding a power score and a
//! smoothed pressure reading, under a countdown clock.
//!
//! All quantities are fixed-point integers: one unit is `UNIT` (1000)
//! thousandths, and time is counted in milliseconds.

pub mod clock;
pub mod collision;
pub mod economy;
pub mod engine;
pub mod geometry;
pub mod laws;
pub mod molecule;
pub mod particle;
pub mod random;
pub mod simulation;
pub mod spawn;

pub use clock::{Clock, Outcome, Timer};
pub use economy::{Cost, GodMode, Power, PressureFilter, Temperature, Unlocked};
pub use geometry::{Dimensions, Reactor, Vec2};
pub use molecule::{MoleculeType, Reaction, ReactionType, SpriteType};
pub use particle::{Molecule, Velocity};
pub use random::RandomSource;
pub use simulation::{PurchaseError, Simulation};
