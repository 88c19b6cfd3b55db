use reactor_sim::collision::{bounce, separate, SEPARATION};
use reactor_sim::engine::integrate;
use reactor_sim::geometry::isqrt;
use reactor_sim::{Dimensions, Molecule, MoleculeType, Reactor, Vec2, Velocity};

fn big_reactor() -> Reactor {
    Reactor {
        center: Vec2 { x: 0, y: 0 },
        dimensions: Dimensions { x_size: 1_000_000, y_size: 1_000_000 },
    }
}

fn molecule(variant: MoleculeType, x: i64, y: i64, vx: i64, vy: i64) -> Molecule {
    Molecule {
        variant,
        mass: variant.mass(),
        reacted: false,
        position: Vec2 { x, y },
        velocity: Velocity { val: Vec2 { x: vx, y: vy } },
        dimensions: Dimensions { x_size: 32_000, y_size: 32_000 },
        frame: 0,
    }
}

#[test]
fn integer_square_root() {
    assert_eq!(isqrt(0), 0);
    assert_eq!(isqrt(1), 1);
    assert_eq!(isqrt(15), 3);
    assert_eq!(isqrt(16), 4);
    assert_eq!(isqrt(400_000_000), 20_000);
    assert_eq!(isqrt(1_024_000_000), 32_000);
}

#[test]
fn equal_masses_swap_velocities() {
    let a = molecule(MoleculeType::Red, 0, 0, 1000, 0);
    let b = molecule(MoleculeType::Red, 20_000, 0, -1000, 0);
    let (va, vb) = bounce(&a, &b);
    assert_eq!(va, Vec2 { x: -1000, y: 0 });
    assert_eq!(vb, Vec2 { x: 1000, y: 0 });
}

#[test]
fn unequal_masses_follow_impulse_formula() {
    // offset (-20000, 0), rv (2000, 0): j = -4e7 / (4e8 * 2400)
    let a = molecule(MoleculeType::Red, 0, 0, 1000, 0);
    let b = molecule(MoleculeType::Blue, 20_000, 0, -1000, 0);
    let (va, vb) = bounce(&a, &b);
    // va.x = 1000 - 2 * 1600 * j * (-20000) = 1000 - 2666.67 -> truncated
    assert_eq!(va, Vec2 { x: 1000 - 2666, y: 0 });
    assert_eq!(vb, Vec2 { x: -1000 + 1333, y: 0 });
}

#[test]
fn coincident_molecules_keep_velocity_and_split_along_x() {
    let a = molecule(MoleculeType::Red, 100, 200, 700, -300);
    let b = molecule(MoleculeType::Red, 100, 200, -50, 40);
    let (va, vb) = bounce(&a, &b);
    assert_eq!(va, Vec2 { x: 700, y: -300 });
    assert_eq!(vb, Vec2 { x: -50, y: 40 });
    let (pa, pb) = separate(&a, &b, &big_reactor());
    assert_eq!(pa, Vec2 { x: 100 + SEPARATION / 2, y: 200 });
    assert_eq!(pb, Vec2 { x: 100 - SEPARATION / 2, y: 200 });
}

#[test]
fn separation_sets_pair_apart() {
    let a = molecule(MoleculeType::Red, 0, 0, 0, 0);
    let b = molecule(MoleculeType::Red, 20_000, 0, 0, 0);
    let (pa, pb) = separate(&a, &b, &big_reactor());
    assert_eq!(pa, Vec2 { x: -6160, y: 0 });
    assert_eq!(pb, Vec2 { x: 26160, y: 0 });
    assert_eq!(pb.x - pa.x, 32_320);
}

#[test]
fn separation_push_stays_inside() {
    let reactor = Reactor {
        center: Vec2 { x: 0, y: 0 },
        dimensions: Dimensions { x_size: 40_000, y_size: 40_000 },
    };
    let a = molecule(MoleculeType::Red, 4000, 0, 0, 0);
    let b = molecule(MoleculeType::Red, -4000, 0, 0, 0);
    let (pa, pb) = separate(&a, &b, &reactor);
    assert_eq!(pa, Vec2 { x: 4000, y: 0 });
    assert_eq!(pb, Vec2 { x: -4000, y: 0 });
}

#[test]
fn wall_reflects_velocity_and_counts_momentum() {
    let reactor = Reactor {
        center: Vec2 { x: 0, y: 0 },
        dimensions: Dimensions { x_size: 100_000, y_size: 100_000 },
    };
    // free space along y, the wall along x
    let m = molecule(MoleculeType::Red, 33_000, 0, 2000, 1500);
    let (moved, impulse) = integrate(&m, &reactor);
    assert_eq!(moved.position, Vec2 { x: 33_000, y: 1500 });
    assert_eq!(moved.velocity.val, Vec2 { x: -2000, y: 1500 });
    assert_eq!(impulse, 2 * 2000 * 800 / 1000);
}
