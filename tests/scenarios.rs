use reactor_sim::{
    Dimensions, Molecule, MoleculeType, Outcome, PurchaseError, RandomSource, Simulation, Vec2,
    Velocity,
};

fn fresh() -> Simulation {
    Simulation::new(Simulation::standard_reactor(), RandomSource::pinned(vec![]))
}

fn molecule(variant: MoleculeType, x: i64, y: i64, vx: i64, vy: i64) -> Molecule {
    Molecule {
        variant,
        mass: variant.mass(),
        reacted: false,
        position: Vec2 { x, y },
        velocity: Velocity { val: Vec2 { x: vx, y: vy } },
        dimensions: Dimensions { x_size: 32_000, y_size: 32_000 },
        frame: 0,
    }
}

#[test]
fn new_run_starts_from_seed_state() {
    let sim = fresh();
    assert_eq!(sim.current_power(), 100_000);
    assert_eq!(sim.target_power(), 2_000_000);
    assert_eq!(sim.current_pressure(), 0);
    assert_eq!(sim.max_pressure(), 50_000);
    assert!(sim.is_unlocked(MoleculeType::Red));
    assert!(sim.is_unlocked(MoleculeType::Blue));
    assert!(!sim.is_unlocked(MoleculeType::Orange));
    assert_eq!(sim.cost_of(MoleculeType::Blue), 4_000);
    assert_eq!(sim.outcome(), Outcome::Running);
    assert_eq!(sim.day_fraction_remaining(), 1000);
    assert_eq!(sim.thermometer_sprite(), 0);
    assert!(sim.molecules().is_empty());
}

#[test]
fn day_ends_in_win_above_target() {
    let mut sim = fresh();
    // each tick a fresh Red and Blue meet and react for ten units of power
    for _ in 0..240 {
        sim.add_control_rod();
        sim.molecules.push(molecule(MoleculeType::Red, 120_000, 136_000, 0, 0));
        sim.molecules.push(molecule(MoleculeType::Blue, 130_000, 136_000, 0, 0));
        sim.tick(16);
        assert_eq!(sim.outcome(), Outcome::Running);
    }
    assert_eq!(sim.current_power(), 2_500_000);
    sim.tick(90_000);
    assert_eq!(sim.outcome(), Outcome::Running);
    sim.tick(90_000);
    assert_eq!(sim.outcome(), Outcome::Won);
}

#[test]
fn day_ends_in_loss_below_target() {
    let mut sim = fresh();
    sim.tick(180_000);
    assert_eq!(sim.outcome(), Outcome::Lost);
    // a finished run no longer changes
    sim.power.current_power = 3_000_000;
    sim.tick(1000);
    assert_eq!(sim.outcome(), Outcome::Lost);
}

#[test]
fn explosion_at_check_boundary_not_earlier() {
    let mut sim = fresh();
    // a heavy molecule far too fast for the reactor hits a wall every tick
    sim.molecules.push(molecule(MoleculeType::Purple, 120_000, 136_000, 1_000_000, 0));
    sim.temperature.current_pressure = sim.max_pressure();
    sim.tick(1000);
    assert_eq!(sim.current_pressure(), sim.max_pressure());
    assert_eq!(sim.outcome(), Outcome::Running);
    sim.tick(1000);
    assert_eq!(sim.outcome(), Outcome::Exploded);
}

#[test]
fn godmode_suppresses_endings() {
    let mut sim = fresh();
    sim.molecules.push(molecule(MoleculeType::Purple, 120_000, 136_000, 1_000_000, 0));
    sim.toggle_godmode();
    sim.tick(200_000);
    assert_eq!(sim.current_pressure(), sim.max_pressure());
    assert_eq!(sim.outcome(), Outcome::Running);
    sim.set_godmode(false);
    sim.tick(2000);
    assert_eq!(sim.outcome(), Outcome::Exploded);
}

#[test]
fn locked_purchase_is_rejected() {
    let mut sim = fresh();
    assert_eq!(sim.purchase(MoleculeType::Orange), Err(PurchaseError::Locked));
    assert!(sim.molecules().is_empty());
    assert_eq!(sim.current_power(), 100_000);
}

#[test]
fn purchase_without_funds_is_rejected() {
    let mut sim = fresh();
    sim.power.current_power = 3_999;
    assert_eq!(sim.purchase(MoleculeType::Blue), Err(PurchaseError::InsufficientFunds));
    assert!(sim.molecules().is_empty());
    assert_eq!(sim.current_power(), 3_999);
    sim.power.current_power = 4_000;
    assert_eq!(sim.purchase(MoleculeType::Blue), Ok(()));
    assert_eq!(sim.current_power(), 0);
}

#[test]
fn purchase_pays_and_spawns_from_pinned_draws() {
    let draws = vec![404_000, 214_000, 1, 0, 500, 0, 500, 999, 11];
    let mut sim = Simulation::new(Simulation::standard_reactor(), RandomSource::pinned(draws));
    assert_eq!(sim.purchase(MoleculeType::Red), Ok(()));
    assert_eq!(sim.current_power(), 98_000);
    assert_eq!(sim.cost_of(MoleculeType::Red), 2_000);
    let m = sim.molecules()[0];
    assert_eq!(m.variant, MoleculeType::Red);
    assert_eq!(m.position, Vec2 { x: 120_000, y: 136_000 });
    assert_eq!(m.velocity.val, Vec2 { x: 5_000, y: -2_495 });
    assert_eq!(m.frame, 3);
}

#[test]
fn godmode_purchase_is_free_and_unlocked() {
    let mut sim = fresh();
    sim.set_godmode(true);
    assert!(sim.is_unlocked(MoleculeType::Orange));
    sim.power.current_power = 0;
    assert_eq!(sim.purchase(MoleculeType::Orange), Ok(()));
    assert_eq!(sim.current_power(), 0);
    assert_eq!(sim.molecules().len(), 1);
    sim.set_godmode(false);
    // the discovered set itself was not touched
    assert!(!sim.is_unlocked(MoleculeType::Orange));
}

#[test]
fn shop_prices_shown() {
    let mut sim = fresh();
    assert_eq!(sim.displayed_cost(MoleculeType::Blue), 4_000);
    assert_eq!(sim.displayed_cost(MoleculeType::Orange), 999_000_000);
    sim.set_godmode(true);
    assert_eq!(sim.displayed_cost(MoleculeType::Blue), 0);
    assert_eq!(sim.displayed_cost(MoleculeType::Orange), 0);
}

#[test]
fn cost_scaling_applies_to_next_purchase() {
    let mut sim = fresh();
    sim.cost_scaling = 1500;
    assert_eq!(sim.purchase(MoleculeType::Red), Ok(()));
    assert_eq!(sim.cost_of(MoleculeType::Red), 3_000);
    assert_eq!(sim.current_power(), 98_000);
}

#[test]
fn red_blue_collision_makes_one_purple() {
    let mut sim = fresh();
    sim.molecules.push(molecule(MoleculeType::Red, 120_000, 136_000, 0, 0));
    sim.molecules.push(molecule(MoleculeType::Blue, 130_000, 136_000, 0, 0));
    assert!(!sim.unlocked.purple_unlocked);
    sim.tick(16);
    assert_eq!(sim.molecules().len(), 1);
    let p = sim.molecules()[0];
    assert_eq!(p.variant, MoleculeType::Purple);
    assert_eq!(p.position, Vec2 { x: 120_000, y: 136_000 });
    assert_eq!(sim.current_power(), 110_000);
    assert!(sim.unlocked.purple_unlocked);
    assert!(sim.is_unlocked(MoleculeType::Purple));
}

#[test]
fn orange_pair_makes_two_scattered_grays() {
    let mut sim = fresh();
    sim.molecules.push(molecule(MoleculeType::Orange, 120_000, 136_000, 0, 0));
    sim.molecules.push(molecule(MoleculeType::Orange, 100_000, 136_000, 0, 0));
    sim.tick(16);
    assert_eq!(sim.molecules().len(), 2);
    for m in sim.molecules() {
        assert_eq!(m.variant, MoleculeType::Gray);
        assert!(m.position.x >= 120_000 && m.position.x < 121_000);
        assert!(m.position.y >= 136_000 && m.position.y < 137_000);
    }
    assert_eq!(sim.current_power(), 150_000);
    assert!(sim.unlocked.gray_unlocked);
}

#[test]
fn elastic_bounce_leaves_power_alone() {
    let mut sim = fresh();
    sim.molecules.push(molecule(MoleculeType::Red, 120_000, 136_000, 1000, 0));
    sim.molecules.push(molecule(MoleculeType::Red, 140_000, 136_000, -1000, 0));
    sim.tick(16);
    assert_eq!(sim.current_power(), 100_000);
    assert_eq!(sim.current_pressure(), 0);
    let a = sim.molecules()[0];
    let b = sim.molecules()[1];
    assert_eq!(a.velocity.val, Vec2 { x: -1000, y: 0 });
    assert_eq!(b.velocity.val, Vec2 { x: 1000, y: 0 });
    // pushed to 32.32 units apart, then moved one step
    assert_eq!(a.position, Vec2 { x: 120_000 - 6_160 - 1000, y: 136_000 });
    assert_eq!(b.position, Vec2 { x: 140_000 + 6_160 + 1000, y: 136_000 });
}

#[test]
fn molecules_stay_inside_over_many_ticks() {
    let mut sim = fresh();
    sim.set_godmode(true);
    for k in 0..30 {
        sim.molecules.push(molecule(
            if k % 2 == 0 { MoleculeType::Red } else { MoleculeType::Purple },
            -250_000 + 17_000 * k,
            136_000 + (k % 5) * 20_000,
            3_000 - 211 * k,
            -2_000 + 137 * k,
        ));
    }
    for _ in 0..500 {
        sim.tick(16);
        for m in sim.molecules() {
            assert!(2 * (m.position.x - 120_000).abs() <= 840_000 - 32_000);
            assert!(2 * (m.position.y - 136_000).abs() <= 460_000 - 32_000);
        }
    }
}

#[test]
fn control_rod_clears_reactor() {
    let mut sim = fresh();
    sim.molecules.push(molecule(MoleculeType::Red, 120_000, 136_000, 0, 0));
    sim.add_control_rod();
    assert!(sim.molecules().is_empty());
}

#[test]
fn pinned_values_come_first() {
    let mut r = RandomSource::pinned(vec![7, 9]);
    assert_eq!(r.next_u32(), 7);
    assert_eq!(r.next_u32(), 9);
    let _ = r.next_u32();
}

#[test]
fn animation_steps_every_eighth_second() {
    let mut sim = fresh();
    let mut m = molecule(MoleculeType::Red, 120_000, 136_000, 0, 0);
    m.frame = 7;
    sim.molecules.push(m);
    sim.tick(100);
    assert_eq!(sim.molecules()[0].frame, 7);
    sim.tick(100);
    assert_eq!(sim.molecules()[0].frame, 0);
}
