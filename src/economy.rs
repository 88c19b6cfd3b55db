use vstd::prelude::*;
use crate::molecule::{base_cost_of, MoleculeType};

verus! {

/// Power is held within `0..=MAX_POWER` thousandths.
pub const MAX_POWER: u64 = 999_000_000;

/// Power at the start of a run.
pub const START_POWER: u64 = 100_000;

/// Power that must be exceeded when the day ends.
pub const TARGET_POWER: u64 = 2_000_000;

/// Pressure at which the reactor explodes.
pub const MAX_PRESSURE: u64 = 50_000;

/// Largest maximum pressure the filter accepts.
pub const PRESSURE_LIMIT: u64 = 1_000_000_000_000;

/// Largest wall momentum of one tick the filter accepts.
pub const MOMENTUM_LIMIT: u128 = 0x10_0000_0000_0000_0000_0000_0000;

/// Weight, in thousandths, of each tick's wall impacts in the pressure
/// reading.
pub const PRESSURE_SENSITIVITY: u64 = 50;

/// Price multiplier applied after each purchase, in thousandths.
pub const COST_SCALING: u64 = 1000;

/// The player's accumulated power and the goal for the day.
#[derive(Debug, Clone, Copy, PartialEq, Eq, Structural)]
pub struct Power {
    pub current_power: u64,
    pub target_power: u64,
}

/// The smoothed pressure reading and its explosion threshold.
#[derive(Debug, Clone, Copy, PartialEq, Eq, Structural)]
pub struct Temperature {
    pub current_pressure: u64,
    pub max_pressure: u64,
}

/// Which kinds have been discovered and may be bought.
#[derive(Debug, Clone, Copy, PartialEq, Eq, Structural)]
pub struct Unlocked {
    pub red_unlocked: bool,
    pub blue_unlocked: bool,
    pub orange_unlocked: bool,
    pub purple_unlocked: bool,
    pub gray_unlocked: bool,
}

/// The current price of each kind, in thousandths.
#[derive(Debug, Clone, Copy, PartialEq, Eq, Structural)]
pub struct Cost {
    pub red_cost: u64,
    pub blue_cost: u64,
    pub orange_cost: u64,
    pub purple_cost: u64,
    pub gray_cost: u64,
}

/// The debug override: no terminal transitions, every kind available.
#[derive(Debug, Clone, Copy, PartialEq, Eq, Structural)]
pub struct GodMode(pub bool);

/// Smoothing of wall impacts into a pressure reading.
#[derive(Debug, Clone, Copy, PartialEq, Eq, Structural)]
pub struct PressureFilter {
    /// In thousandths, within `1..=1000`.
    pub sensitivity: u64,
}

/// Pressure after one tick whose wall impacts sum to `dm`:
/// `p (1 - k) + 60 dm k` with `k = s / 60000`, rounded down, held to `max`.
pub open spec fn filter_spec(p: int, dm: int, s: int, max: int) -> int {
    let v = (p * (60000 - s) + 60 * dm * s) / 60000;
    if v > max {
        max
    } else {
        v
    }
}

/// Pressure after ticks whose impacts are `dms`, in order.
pub open spec fn filter_run(p: int, dms: Seq<int>, s: int, max: int) -> int
    decreases dms.len(),
{
    if dms.len() == 0 {
        p
    } else {
        filter_run(filter_spec(p, dms[0], s, max), dms.drop_first(), s, max)
    }
}

/// The seed kinds unlocked at the start of a run.
pub open spec fn seed_kinds() -> Set<MoleculeType> {
    set![MoleculeType::Red, MoleculeType::Blue]
}

impl View for Unlocked {
    type V = Set<MoleculeType>;

    open spec fn view(&self) -> Set<MoleculeType> {
        Set::new(
            |t: MoleculeType|
                match t {
                    MoleculeType::Red => self.red_unlocked,
                    MoleculeType::Blue => self.blue_unlocked,
                    MoleculeType::Orange => self.orange_unlocked,
                    MoleculeType::Purple => self.purple_unlocked,
                    MoleculeType::Gray => self.gray_unlocked,
                },
        )
    }
}

impl Unlocked {
    /// The start of a run: the two seed kinds.
    pub fn seeded() -> (r: Unlocked)
        ensures
            r@ == seed_kinds(),
    {
        let r = Unlocked {
            red_unlocked: true,
            blue_unlocked: true,
            orange_unlocked: false,
            purple_unlocked: false,
            gray_unlocked: false,
        };
        assert(r@ =~= seed_kinds());
        r
    }

    pub fn get_unlocked(&self, molecule_type: MoleculeType) -> (r: &bool)
        ensures
            *r == self@.contains(molecule_type),
    {
        match molecule_type {
            MoleculeType::Red => &self.red_unlocked,
            MoleculeType::Blue => &self.blue_unlocked,
            MoleculeType::Orange => &self.orange_unlocked,
            MoleculeType::Purple => &self.purple_unlocked,
            MoleculeType::Gray => &self.gray_unlocked,
        }
    }

    pub fn unlock(&mut self, molecule_type: MoleculeType)
        ensures
            final(self)@ == old(self)@.insert(molecule_type),
    {
        match molecule_type {
            MoleculeType::Red => self.red_unlocked = true,
            MoleculeType::Blue => self.blue_unlocked = true,
            MoleculeType::Orange => self.orange_unlocked = true,
            MoleculeType::Purple => self.purple_unlocked = true,
            MoleculeType::Gray => self.gray_unlocked = true,
        }
        assert(self@ =~= old(self)@.insert(molecule_type));
    }
}

impl Cost {
    /// The price of `t`.
    pub open spec fn of(self, t: MoleculeType) -> int {
        match t {
            MoleculeType::Red => self.red_cost as int,
            MoleculeType::Blue => self.blue_cost as int,
            MoleculeType::Orange => self.orange_cost as int,
            MoleculeType::Purple => self.purple_cost as int,
            MoleculeType::Gray => self.gray_cost as int,
        }
    }

    /// The price table with the price of `t` replaced by `v`.
    pub open spec fn with(self, t: MoleculeType, v: u64) -> Cost {
        match t {
            MoleculeType::Red => Cost { red_cost: v, ..self },
            MoleculeType::Blue => Cost { blue_cost: v, ..self },
            MoleculeType::Orange => Cost { orange_cost: v, ..self },
            MoleculeType::Purple => Cost { purple_cost: v, ..self },
            MoleculeType::Gray => Cost { gray_cost: v, ..self },
        }
    }

    /// Every kind at its base price.
    pub fn base() -> (r: Cost)
        ensures
            forall|t: MoleculeType| #[trigger] r.of(t) == base_cost_of(t),
    {
        Cost {
            red_cost: MoleculeType::Red.base_cost(),
            blue_cost: MoleculeType::Blue.base_cost(),
            orange_cost: MoleculeType::Orange.base_cost(),
            purple_cost: MoleculeType::Purple.base_cost(),
            gray_cost: MoleculeType::Gray.base_cost(),
        }
    }

    pub fn get_cost(&self, molecule_type: MoleculeType) -> (r: &u64)
        ensures
            *r == self.of(molecule_type),
    {
        match molecule_type {
            MoleculeType::Red => &self.red_cost,
            MoleculeType::Blue => &self.blue_cost,
            MoleculeType::Orange => &self.orange_cost,
            MoleculeType::Purple => &self.purple_cost,
            MoleculeType::Gray => &self.gray_cost,
        }
    }

    pub fn get_cost_mut(&mut self, molecule_type: MoleculeType) -> (r: &mut u64)
        ensures
            *r == old(self).of(molecule_type),
            *final(self) == old(self).with(molecule_type, *final(r)),
    {
        match molecule_type {
            MoleculeType::Red => &mut self.red_cost,
            MoleculeType::Blue => &mut self.blue_cost,
            MoleculeType::Orange => &mut self.orange_cost,
            MoleculeType::Purple => &mut self.purple_cost,
            MoleculeType::Gray => &mut self.gray_cost,
        }
    }
}

impl PressureFilter {
    pub open spec fn wf(self) -> bool {
        1 <= self.sensitivity <= 1000
    }

    /// The new pressure reading after a tick whose wall impacts sum to
    /// `delta_momentum`; it never exceeds `max_pressure`.
    pub fn update(&self, pressure: u64, max_pressure: u64, delta_momentum: u128) -> (r: u64)
        requires
            self.wf(),
            max_pressure <= PRESSURE_LIMIT,
            delta_momentum <= MOMENTUM_LIMIT,
        ensures
            r == filter_spec(
                pressure as int,
                delta_momentum as int,
                self.sensitivity as int,
                max_pressure as int,
            ),
            r <= max_pressure,
    {
        let s = self.sensitivity as u128;
        assert((pressure as u128) * (60000 - s) <= 0x1_0000_0000_0000_0000 * 60000) by (nonlinear_arith)
            requires
                pressure <= 0xffff_ffff_ffff_ffff,
                1 <= s <= 1000,
        ;
        assert(60 * delta_momentum * s <= MOMENTUM_LIMIT * 60000) by (nonlinear_arith)
            requires
                delta_momentum <= MOMENTUM_LIMIT,
                1 <= s <= 1000,
        ;
        let keep = (pressure as u128) * (60000 - s);
        let gain = 60 * delta_momentum * s;
        let v = (keep + gain) / 60000;
        if v > max_pressure as u128 {
            max_pressure
        } else {
            v as u64
        }
    }
}

} // verus!
