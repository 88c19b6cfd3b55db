use reactor_sim::economy::{MAX_PRESSURE, PRESSURE_SENSITIVITY};
use reactor_sim::{Cost, MoleculeType, PressureFilter, Unlocked};

#[test]
fn filter_exact_values() {
    let f = PressureFilter { sensitivity: PRESSURE_SENSITIVITY };
    assert_eq!(f.update(0, MAX_PRESSURE, 1000), 50);
    assert_eq!(f.update(50_000, MAX_PRESSURE, 0), 49_958);
    assert_eq!(f.update(0, MAX_PRESSURE, 0), 0);
}

#[test]
fn filter_spike_is_held_to_maximum() {
    let f = PressureFilter { sensitivity: PRESSURE_SENSITIVITY };
    assert_eq!(f.update(0, MAX_PRESSURE, 1_000_000_000_000), MAX_PRESSURE);
    let mut p = 0;
    for dm in [0u128, 5, 1 << 90, 3, 0, 1 << 40] {
        p = f.update(p, MAX_PRESSURE, dm);
        assert!(p <= MAX_PRESSURE);
    }
}

#[test]
fn unlock_and_lookup() {
    let mut u = Unlocked::seeded();
    assert!(*u.get_unlocked(MoleculeType::Red));
    assert!(*u.get_unlocked(MoleculeType::Blue));
    assert!(!*u.get_unlocked(MoleculeType::Purple));
    u.unlock(MoleculeType::Purple);
    assert!(*u.get_unlocked(MoleculeType::Purple));
    u.unlock(MoleculeType::Purple);
    assert!(*u.get_unlocked(MoleculeType::Purple));
    assert!(!*u.get_unlocked(MoleculeType::Orange));
}

#[test]
fn cost_table() {
    let mut c = Cost::base();
    assert_eq!(*c.get_cost(MoleculeType::Orange), 20_000);
    *c.get_cost_mut(MoleculeType::Orange) = 25_000;
    assert_eq!(*c.get_cost(MoleculeType::Orange), 25_000);
    assert_eq!(*c.get_cost(MoleculeType::Gray), 1_000);
}
