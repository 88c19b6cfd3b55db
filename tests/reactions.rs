use reactor_sim::{MoleculeType, ReactionType, SpriteType};
use reactor_sim::MoleculeType::{Blue, Gray, Orange, Purple, Red};

#[test]
fn red_blue_in_either_order() {
    let ab = MoleculeType::can_react(MoleculeType::Red, MoleculeType::Blue).unwrap();
    let ba = MoleculeType::can_react(MoleculeType::Blue, MoleculeType::Red).unwrap();
    assert_eq!(ab.reaction_type, ReactionType::RedBlue);
    assert_eq!(ba.reaction_type, ReactionType::RedBlue);
    assert_eq!(ab.products, vec![MoleculeType::Purple]);
    assert_eq!(ba.products, vec![MoleculeType::Purple]);
    assert_eq!(ab.power_generated, 10_000);
    assert_eq!(ab.temp_generated, 15_000);
}

#[test]
fn full_reaction_table() {
    let cases = [
        (Red, Gray, ReactionType::GrayRed, vec![Gray], 2_000, 15_000),
        (Blue, Blue, ReactionType::BlueBlue, vec![Gray], 7_000, -15_000),
        (Orange, Orange, ReactionType::OrangeOrange, vec![Gray, Gray], 50_000, 30_000),
        (Gray, Orange, ReactionType::GrayOrange, vec![Red, Red], 15_000, -5_000),
        (Purple, Gray, ReactionType::GrayPurple, vec![Orange], 30_000, -5_000),
    ];
    for (a, b, kind, products, power, pressure) in cases {
        for (x, y) in [(a, b), (b, a)] {
            let r = MoleculeType::can_react(x, y).unwrap();
            assert_eq!(r.reaction_type, kind);
            assert_eq!(r.products, products);
            assert_eq!(r.power_generated, power);
            assert_eq!(r.temp_generated, pressure);
        }
    }
}

#[test]
fn unlisted_pairs_only_bounce() {
    assert!(MoleculeType::can_react(Red, Red).is_none());
    assert!(MoleculeType::can_react(Purple, Purple).is_none());
    assert!(MoleculeType::can_react(Gray, Gray).is_none());
    assert!(MoleculeType::can_react(Blue, Orange).is_none());
    assert!(MoleculeType::can_react(Red, Purple).is_none());
}

#[test]
fn kind_constants() {
    assert_eq!(Red.mass(), 800);
    assert_eq!(Blue.mass(), 1600);
    assert_eq!(Orange.mass(), 2400);
    assert_eq!(Purple.mass(), 3200);
    assert_eq!(Gray.mass(), 400);
    assert_eq!(Red.base_cost(), 2000);
    assert_eq!(Orange.base_cost(), 20000);
    assert_eq!(Gray.animation_frames(), 8);
    assert_eq!(Red.name(), "Red Molecule");
    assert_eq!(Gray.name(), "Gray Molecule");
    assert_eq!(SpriteType::Molecule(Blue), SpriteType::Molecule(Blue));
    assert_ne!(SpriteType::Lab, SpriteType::Thermometer);
}
