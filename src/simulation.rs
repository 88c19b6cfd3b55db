use vstd::prelude::*;
use crate::clock::{
    next_outcome, timer_tick_spec, Clock, Outcome, Timer, ANIMATION_MS, DAY_LENGTH_MS,
    PRESSURE_CHECK_MS,
};
use crate::economy::{
    filter_spec, seed_kinds, Cost, GodMode, Power, PressureFilter, Temperature, Unlocked,
    COST_SCALING, MAX_POWER, MAX_PRESSURE, PRESSURE_LIMIT, PRESSURE_SENSITIVITY, START_POWER,
    TARGET_POWER,
};
use crate::engine::{
    apply_spawns, impulse_total, integrate_all, integrate_molecules, scan, scan_spec, settled,
    unreacted, ScanState,
};
use crate::geometry::{Dimensions, Reactor, Vec2};
use crate::molecule::{base_cost_of, MoleculeType};
use crate::particle::Molecule;
use crate::random::RandomSource;
use crate::spawn::{add_molecule, is_product, is_purchase, room_for_molecule};

verus! {

/// Largest price multiplier accepted, in thousandths.
pub const SCALING_LIMIT: u64 = 1_000_000;

/// Why a purchase was refused.
#[derive(Debug, Clone, Copy, PartialEq, Eq, Structural)]
pub enum PurchaseError {
    /// The kind has not been discovered yet.
    Locked,
    /// The power is below the kind's price.
    InsufficientFunds,
}

/// The whole state of one run.
pub struct Simulation {
    pub reactor: Reactor,
    pub molecules: Vec<Molecule>,
    pub power: Power,
    pub temperature: Temperature,
    pub filter: PressureFilter,
    pub unlocked: Unlocked,
    pub cost: Cost,
    /// Price multiplier applied after each purchase, in thousandths.
    pub cost_scaling: u64,
    pub godmode: GodMode,
    pub clock: Clock,
    pub animation: Timer,
    pub outcome: Outcome,
    pub rng: RandomSource,
}

/// The price after a purchase: scaled, and never above the largest power.
pub open spec fn scaled_cost(c: int, scaling: int) -> int {
    if c * scaling / 1000 > MAX_POWER {
        MAX_POWER as int
    } else {
        c * scaling / 1000
    }
}

/// The molecules with their animation frame moved on by one when `step`.
pub open spec fn animate(ms: Seq<Molecule>, step: bool) -> Seq<Molecule> {
    ms.map_values(
        |m: Molecule|
            if step {
                Molecule { frame: ((m.frame + 1) % 8) as usize, ..m }
            } else {
                m
            },
    )
}

/// `new` is `old` after one tick of `dt` milliseconds of a running run.
pub open spec fn tick_post(old: Simulation, new: Simulation, dt: int) -> bool {
    let sc = old.scan_result();
    let anim = timer_tick_spec(old.animation, dt);
    let kept = unreacted(animate(old.moved(), anim.1));
    let day = timer_tick_spec(old.clock.countdown, dt);
    let check = timer_tick_spec(old.clock.pressure_check, dt);
    &&& new.reactor == old.reactor
    &&& new.power.current_power == sc.power
    &&& new.power.target_power == old.power.target_power
    &&& new.unlocked@ == sc.unlocked
    &&& new.temperature.current_pressure == old.pressure_after()
    &&& new.temperature.max_pressure == old.temperature.max_pressure
    &&& new.filter == old.filter
    &&& new.cost == old.cost
    &&& new.cost_scaling == old.cost_scaling
    &&& new.godmode == old.godmode
    &&& new.animation == anim.0
    &&& new.molecules@.len() == kept.len() + sc.spawns.len()
    &&& new.molecules@.take(kept.len() as int) == kept
    &&& forall|k: int|
        0 <= k < sc.spawns.len() ==> is_product(
            #[trigger] new.molecules@[kept.len() + k],
            sc.spawns[k],
            old.reactor,
        )
    &&& if old.godmode.0 {
        &&& new.clock == old.clock
        &&& new.outcome == Outcome::Running
    } else {
        &&& new.clock.countdown == day.0
        &&& new.clock.pressure_check == check.0
        &&& new.outcome == next_outcome(
            day.1,
            check.1,
            sc.power,
            old.power.target_power as int,
            old.pressure_after(),
            old.temperature.max_pressure as int,
        )
    }
}

fn animate_molecules(ms: &mut Vec<Molecule>, reactor: &Reactor)
    requires
        settled(old(ms)@, *reactor),
    ensures
        final(ms)@ == animate(old(ms)@, true),
        settled(final(ms)@, *reactor),
{
    let ghost ms0 = ms@;
    let mut k: usize = 0;
    while k < ms.len()
        invariant
            ms.len() == ms0.len(),
            0 <= k <= ms.len(),
            settled(ms0, *reactor),
            forall|q: int| k <= q < ms0.len() ==> ms@[q] == ms0[q],
            forall|q: int| 0 <= q < k ==> ms@[q] == animate(ms0, true)[q],
            forall|q: int| 0 <= q < k ==> (#[trigger] ms@[q]).wf(*reactor) && ms@[q].dimensions == crate::spawn::molecule_dims(),
        decreases ms.len() - k,
    {
        let m = ms[k];
        assert(ms0[k as int].wf(*reactor));
        ms.set(k, Molecule { frame: (m.frame + 1) % 8, ..m });
        k = k + 1;
    }
    assert(ms@ =~= animate(ms0, true));
}

impl Simulation {
    pub open spec fn wf(&self) -> bool {
        &&& room_for_molecule(self.reactor)
        &&& settled(self.molecules@, self.reactor)
        &&& forall|k: int| 0 <= k < self.molecules@.len() ==> !(#[trigger] self.molecules@[k]).reacted
        &&& self.power.current_power <= MAX_POWER
        &&& self.temperature.max_pressure <= PRESSURE_LIMIT
        &&& self.temperature.current_pressure <= self.temperature.max_pressure
        &&& self.filter.wf()
        &&& self.clock.wf()
        &&& self.animation.wf()
        &&& self.animation.repeating
        &&& forall|t: MoleculeType| #[trigger] self.cost.of(t) <= MAX_POWER
        &&& self.cost_scaling <= SCALING_LIMIT
        &&& self.rng.wf()
    }

    /// The pairwise scan of this tick.
    pub open spec fn scan_result(&self) -> ScanState {
        scan_spec(self.molecules@, self.power.current_power as int, self.unlocked@, self.reactor)
    }

    /// The molecules after this tick's scan and motion, before the consumed
    /// ones leave and the products arrive.
    pub open spec fn moved(&self) -> Seq<Molecule> {
        integrate_all(self.scan_result().molecules, self.reactor)
    }

    /// The pressure reading after this tick's wall impacts.
    pub open spec fn pressure_after(&self) -> int {
        filter_spec(
            self.temperature.current_pressure as int,
            impulse_total(self.scan_result().molecules, self.reactor),
            self.filter.sensitivity as int,
            self.temperature.max_pressure as int,
        )
    }

    /// Whether `t` may be bought: discovered, or god mode is on.
    pub open spec fn available(&self, t: MoleculeType) -> bool {
        self.godmode.0 || self.unlocked@.contains(t)
    }

    /// The reactor of the game's screen: 840 by 460 units around
    /// (120, 136).
    pub fn standard_reactor() -> (r: Reactor)
        ensures
            room_for_molecule(r),
            r == (Reactor {
                center: Vec2 { x: 120_000, y: 136_000 },
                dimensions: Dimensions { x_size: 840_000, y_size: 460_000 },
            }),
    {
        Reactor {
            center: Vec2 { x: 120_000, y: 136_000 },
            dimensions: Dimensions { x_size: 840_000, y_size: 460_000 },
        }
    }

    /// A run in `reactor` that draws its random numbers from `rng`: start
    /// power, no pressure, the seed kinds unlocked at their base prices, a
    /// full day ahead.
    pub fn new(reactor: Reactor, rng: RandomSource) -> (r: Simulation)
        requires
            room_for_molecule(reactor),
            rng.wf(),
        ensures
            r.wf(),
            r.reactor == reactor,
            r.molecules@.len() == 0,
            r.power == (Power { current_power: START_POWER, target_power: TARGET_POWER }),
            r.temperature == (Temperature { current_pressure: 0, max_pressure: MAX_PRESSURE }),
            r.filter.sensitivity == PRESSURE_SENSITIVITY,
            r.unlocked@ == seed_kinds(),
            forall|t: MoleculeType| #[trigger] r.cost.of(t) == base_cost_of(t),
            r.cost_scaling == COST_SCALING,
            !r.godmode.0,
            r.clock == Clock::new_spec(DAY_LENGTH_MS, PRESSURE_CHECK_MS),
            r.outcome == Outcome::Running,
            r.rng == rng,
    {
        let r = Simulation {
            reactor,
            molecules: Vec::new(),
            power: Power { current_power: START_POWER, target_power: TARGET_POWER },
            temperature: Temperature { current_pressure: 0, max_pressure: MAX_PRESSURE },
            filter: PressureFilter { sensitivity: PRESSURE_SENSITIVITY },
            unlocked: Unlocked::seeded(),
            cost: Cost::base(),
            cost_scaling: COST_SCALING,
            godmode: GodMode(false),
            clock: Clock::new(DAY_LENGTH_MS, PRESSURE_CHECK_MS),
            animation: Timer::new(ANIMATION_MS, true),
            outcome: Outcome::Running,
            rng,
        };
        assert forall|t: MoleculeType| #[trigger] r.cost.of(t) <= MAX_POWER by {
            assert(r.cost.of(t) == base_cost_of(t));
        }
        r
    }
}

impl Simulation {
    /// Advances a running run by one tick of `dt_ms` milliseconds: the
    /// pairwise scan, motion with wall reflection, the pressure update, the
    /// animation step, the removal of consumed molecules and the creation of
    /// products, then the clock. A finished run does not change.
    pub fn tick(&mut self, dt_ms: u64)
        requires
            old(self).wf(),
        ensures
            final(self).wf(),
            old(self).outcome != Outcome::Running ==> *final(self) == *old(self),
            old(self).outcome == Outcome::Running ==> tick_post(*old(self), *final(self), dt_ms as int),
    {
        if self.outcome != Outcome::Running {
            return;
        }
        let ghost old_self = *self;
        let spawns = scan(&mut self.molecules, &mut self.power.current_power, &mut self.unlocked, &self.reactor);
        let dm = integrate_molecules(&mut self.molecules, &self.reactor);
        assert(dm <= crate::economy::MOMENTUM_LIMIT) by (nonlinear_arith)
            requires
                dm <= 2 * crate::engine::IMPULSE_LIMIT * self.molecules.len(),
                self.molecules.len() <= usize::MAX,
        ;
        self.temperature.current_pressure = self.filter.update(
            self.temperature.current_pressure,
            self.temperature.max_pressure,
            dm,
        );
        let step = self.animation.tick(dt_ms);
        if step {
            animate_molecules(&mut self.molecules, &self.reactor);
        } else {
            assert(self.molecules@ =~= animate(self.molecules@, false));
        }
        let next = apply_spawns(&self.molecules, &spawns, &self.reactor, &mut self.rng);
        self.molecules = next;
        if !self.godmode.0 {
            self.outcome = self.clock.advance(
                dt_ms,
                self.power.current_power,
                self.power.target_power,
                self.temperature.current_pressure,
                self.temperature.max_pressure,
            );
        }
    }

    /// Buys one molecule of kind `t`: refused as `Locked` when the kind is
    /// undiscovered, then as `InsufficientFunds` when the power is below its
    /// price, unless god mode is on. A purchase pays the price (god mode pays
    /// nothing), scales the price for the next one, and adds the molecule at
    /// a random point of the reactor. A refusal changes nothing.
    pub fn purchase(&mut self, t: MoleculeType) -> (r: Result<(), PurchaseError>)
        requires
            old(self).wf(),
        ensures
            final(self).wf(),
            r == Err::<(), PurchaseError>(PurchaseError::Locked) <==> !old(self).available(t),
            r == Err::<(), PurchaseError>(PurchaseError::InsufficientFunds) <==> (old(self).available(t)
                && !old(self).godmode.0 && old(self).power.current_power < old(self).cost.of(t)),
            r.is_ok() <==> (old(self).available(t) && (old(self).godmode.0
                || old(self).power.current_power >= old(self).cost.of(t))),
            r.is_err() ==> *final(self) == *old(self),
            r.is_ok() ==> {
                &&& final(self).power.current_power == if old(self).godmode.0 {
                    old(self).power.current_power as int
                } else {
                    old(self).power.current_power - old(self).cost.of(t)
                }
                &&& final(self).cost == old(self).cost.with(
                    t,
                    scaled_cost(old(self).cost.of(t), old(self).cost_scaling as int) as u64,
                )
                &&& final(self).molecules@.len() == old(self).molecules@.len() + 1
                &&& final(self).molecules@.drop_last() == old(self).molecules@
                &&& is_purchase(final(self).molecules@.last(), t, old(self).reactor)
                &&& final(self).reactor == old(self).reactor
                &&& final(self).power.target_power == old(self).power.target_power
                &&& final(self).temperature == old(self).temperature
                &&& final(self).unlocked == old(self).unlocked
                &&& final(self).godmode == old(self).godmode
                &&& final(self).clock == old(self).clock
                &&& final(self).outcome == old(self).outcome
            },
    {
        if !self.godmode.0 && !*self.unlocked.get_unlocked(t) {
            return Err(PurchaseError::Locked);
        }
        let price = *self.cost.get_cost(t);
        if !self.godmode.0 && self.power.current_power < price {
            return Err(PurchaseError::InsufficientFunds);
        }
        let m = add_molecule(t, &self.reactor, &mut self.rng);
        let ghost before = self.molecules@;
        self.molecules.push(m);
        assert(self.molecules@.drop_last() =~= before);
        if !self.godmode.0 {
            self.power.current_power = self.power.current_power - price;
        }
        let pw = price as u128;
        let sc = self.cost_scaling as u128;
        assert(pw * sc <= 1_000_000_000_000_000) by (nonlinear_arith)
            requires
                pw <= 999_000_000,
                sc <= 1_000_000,
        ;
        let scaled = (pw * sc) / 1000;
        let next = if scaled > MAX_POWER as u128 {
            MAX_POWER
        } else {
            scaled as u64
        };
        let c = self.cost.get_cost_mut(t);
        *c = next;
        proof {
            assert forall|k: MoleculeType| #[trigger] self.cost.of(k) <= MAX_POWER by {
                if k != t {
                    assert(self.cost.of(k) == old(self).cost.of(k));
                }
            }
        }
        Ok(())
    }

    /// Turns god mode on or off.
    pub fn set_godmode(&mut self, on: bool)
        requires
            old(self).wf(),
        ensures
            final(self).wf(),
            *final(self) == (Simulation { godmode: GodMode(on), ..*old(self) }),
    {
        self.godmode = GodMode(on);
    }

    /// Flips god mode.
    pub fn toggle_godmode(&mut self)
        requires
            old(self).wf(),
        ensures
            final(self).wf(),
            *final(self) == (Simulation { godmode: GodMode(!old(self).godmode.0), ..*old(self) }),
    {
        self.godmode = GodMode(!self.godmode.0);
    }

    /// Removes every molecule from the reactor.
    pub fn add_control_rod(&mut self)
        requires
            old(self).wf(),
        ensures
            final(self).wf(),
            final(self).molecules@.len() == 0,
            *final(self) == (Simulation { molecules: final(self).molecules, ..*old(self) }),
    {
        self.molecules.clear();
    }

    /// Whether kind `t` may be bought now.
    pub fn is_unlocked(&self, t: MoleculeType) -> (r: bool)
        ensures
            r == self.available(t),
    {
        self.godmode.0 || *self.unlocked.get_unlocked(t)
    }

    /// The current price of kind `t`, in thousandths.
    pub fn cost_of(&self, t: MoleculeType) -> (r: u64)
        ensures
            r == self.cost.of(t),
    {
        *self.cost.get_cost(t)
    }

    /// The price a shop button shows for kind `t`: nothing in god mode, the
    /// power ceiling for an undiscovered kind, else the current price.
    pub fn displayed_cost(&self, t: MoleculeType) -> (r: u64)
        ensures
            r == if self.godmode.0 {
                0
            } else if self.unlocked@.contains(t) {
                self.cost.of(t)
            } else {
                MAX_POWER as int
            },
    {
        if self.godmode.0 {
            0
        } else if *self.unlocked.get_unlocked(t) {
            *self.cost.get_cost(t)
        } else {
            MAX_POWER
        }
    }

    pub fn current_power(&self) -> (r: u64)
        ensures
            r == self.power.current_power,
    {
        self.power.current_power
    }

    pub fn target_power(&self) -> (r: u64)
        ensures
            r == self.power.target_power,
    {
        self.power.target_power
    }

    pub fn current_pressure(&self) -> (r: u64)
        ensures
            r == self.temperature.current_pressure,
    {
        self.temperature.current_pressure
    }

    pub fn max_pressure(&self) -> (r: u64)
        ensures
            r == self.temperature.max_pressure,
    {
        self.temperature.max_pressure
    }

    pub fn outcome(&self) -> (r: Outcome)
        ensures
            r == self.outcome,
    {
        self.outcome
    }

    /// The live molecules, for drawing.
    pub fn molecules(&self) -> (r: &Vec<Molecule>)
        ensures
            r@ == self.molecules@,
    {
        &self.molecules
    }

    /// Thousandths of the day still to run.
    pub fn day_fraction_remaining(&self) -> (r: u64)
        requires
            self.wf(),
        ensures
            r == (self.clock.countdown.duration - self.clock.countdown.elapsed) * 1000
                / (self.clock.countdown.duration as int),
    {
        self.clock.countdown.fraction_remaining()
    }

    /// Frame of the thermometer sprite: the pressure as a share of the
    /// maximum, in sevenths `0..=6`, rounded to nearest.
    pub fn thermometer_sprite(&self) -> (r: usize)
        requires
            self.wf(),
        ensures
            self.temperature.max_pressure == 0 ==> r == 6,
            self.temperature.max_pressure > 0 ==> r == (12 * self.temperature.current_pressure
                + self.temperature.max_pressure) / (2 * self.temperature.max_pressure as int),
            r <= 6,
    {
        let p = self.temperature.current_pressure as u128;
        let m = self.temperature.max_pressure as u128;
        if m == 0 {
            return 6;
        }
        assert((12 * p + m) / (2 * m) <= 6) by (nonlinear_arith)
            requires
                p <= m,
                m > 0,
        ;
        ((12 * p + m) / (2 * m)) as usize
    }
}

} // verus!
