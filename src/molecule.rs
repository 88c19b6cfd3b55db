use vstd::prelude::*;

verus! {

/// The kinds of sprites the game draws.
#[derive(Debug, Clone, Copy, PartialEq, Eq, Structural)]
pub enum SpriteType {
    Lab,
    Thermometer,
    LogbookButton,
    Molecule(MoleculeType),
}

/// The kinds of molecules that live in the reactor.
#[derive(Debug, Clone, Copy, PartialEq, Eq, Structural)]
pub enum MoleculeType {
    Red,
    Blue,
    Orange,
    Purple,
    Gray,
}

/// The six reactions of the rule table.
#[derive(Debug, Clone, Copy, PartialEq, Eq, Structural)]
pub enum ReactionType {
    RedBlue,
    GrayPurple,
    BlueBlue,
    OrangeOrange,
    GrayOrange,
    GrayRed,
}

/// The outcome of two touching molecules that react. Power and pressure
/// changes are in thousandths of a unit.
pub struct Reaction {
    pub products: Vec<MoleculeType>,
    pub reaction_type: ReactionType,
    pub power_generated: i64,
    pub temp_generated: i64,
}

/// Mass of each kind, in thousandths of a unit.
pub open spec fn mass_of(t: MoleculeType) -> int {
    match t {
        MoleculeType::Red => 800,
        MoleculeType::Blue => 1600,
        MoleculeType::Orange => 2400,
        MoleculeType::Purple => 3200,
        MoleculeType::Gray => 400,
    }
}

/// Price of the first purchase of each kind, in thousandths of a unit.
pub open spec fn base_cost_of(t: MoleculeType) -> int {
    match t {
        MoleculeType::Red => 2000,
        MoleculeType::Blue => 4000,
        MoleculeType::Orange => 20000,
        MoleculeType::Purple => 8000,
        MoleculeType::Gray => 1000,
    }
}

/// The reaction (if any) of an unordered pair of kinds.
pub open spec fn reaction_of(a: MoleculeType, b: MoleculeType) -> Option<ReactionType> {
    match (a, b) {
        (MoleculeType::Red, MoleculeType::Blue) | (MoleculeType::Blue, MoleculeType::Red) => Some(
            ReactionType::RedBlue,
        ),
        (MoleculeType::Red, MoleculeType::Gray) | (MoleculeType::Gray, MoleculeType::Red) => Some(
            ReactionType::GrayRed,
        ),
        (MoleculeType::Blue, MoleculeType::Blue) => Some(ReactionType::BlueBlue),
        (MoleculeType::Orange, MoleculeType::Orange) => Some(ReactionType::OrangeOrange),
        (MoleculeType::Gray, MoleculeType::Orange) | (MoleculeType::Orange, MoleculeType::Gray) => {
            Some(ReactionType::GrayOrange)
        },
        (MoleculeType::Purple, MoleculeType::Gray) | (MoleculeType::Gray, MoleculeType::Purple) => {
            Some(ReactionType::GrayPurple)
        },
        _ => None,
    }
}

/// What a reaction produces, in spawn order.
pub open spec fn products_of(r: ReactionType) -> Seq<MoleculeType> {
    match r {
        ReactionType::RedBlue => seq![MoleculeType::Purple],
        ReactionType::GrayRed => seq![MoleculeType::Gray],
        ReactionType::BlueBlue => seq![MoleculeType::Gray],
        ReactionType::OrangeOrange => seq![MoleculeType::Gray, MoleculeType::Gray],
        ReactionType::GrayOrange => seq![MoleculeType::Red, MoleculeType::Red],
        ReactionType::GrayPurple => seq![MoleculeType::Orange],
    }
}

/// Power gained by a reaction, in thousandths of a unit.
pub open spec fn power_of(r: ReactionType) -> int {
    match r {
        ReactionType::RedBlue => 10000,
        ReactionType::GrayRed => 2000,
        ReactionType::BlueBlue => 7000,
        ReactionType::OrangeOrange => 50000,
        ReactionType::GrayOrange => 15000,
        ReactionType::GrayPurple => 30000,
    }
}

/// Pressure change of a reaction, in thousandths of a unit.
pub open spec fn pressure_of(r: ReactionType) -> int {
    match r {
        ReactionType::RedBlue => 15000,
        ReactionType::GrayRed => 15000,
        ReactionType::BlueBlue => -15000,
        ReactionType::OrangeOrange => 30000,
        ReactionType::GrayOrange => -5000,
        ReactionType::GrayPurple => -5000,
    }
}

/// The display name of each kind.
pub open spec fn name_of(t: MoleculeType) -> Seq<char> {
    match t {
        MoleculeType::Red => "Red Molecule"@,
        MoleculeType::Blue => "Blue Molecule"@,
        MoleculeType::Orange => "Orange Molecule"@,
        MoleculeType::Purple => "Purple Molecule"@,
        MoleculeType::Gray => "Gray Molecule"@,
    }
}

impl Reaction {
    /// The reaction is the table's entry `r`.
    pub open spec fn is_entry(&self, r: ReactionType) -> bool {
        &&& self.reaction_type == r
        &&& self.products@ == products_of(r)
        &&& self.power_generated == power_of(r)
        &&& self.temp_generated == pressure_of(r)
    }
}

impl ReactionType {
    /// Builds the table's entry for this reaction.
    pub fn entry(self) -> (r: Reaction)
        ensures
            r.is_entry(self),
    {
        let r = match self {
            ReactionType::RedBlue => Reaction {
                products: vec![MoleculeType::Purple],
                reaction_type: self,
                power_generated: 10000,
                temp_generated: 15000,
            },
            ReactionType::GrayRed => Reaction {
                products: vec![MoleculeType::Gray],
                reaction_type: self,
                power_generated: 2000,
                temp_generated: 15000,
            },
            ReactionType::BlueBlue => Reaction {
                products: vec![MoleculeType::Gray],
                reaction_type: self,
                power_generated: 7000,
                temp_generated: -15000,
            },
            ReactionType::OrangeOrange => Reaction {
                products: vec![MoleculeType::Gray, MoleculeType::Gray],
                reaction_type: self,
                power_generated: 50000,
                temp_generated: 30000,
            },
            ReactionType::GrayOrange => Reaction {
                products: vec![MoleculeType::Red, MoleculeType::Red],
                reaction_type: self,
                power_generated: 15000,
                temp_generated: -5000,
            },
            ReactionType::GrayPurple => Reaction {
                products: vec![MoleculeType::Orange],
                reaction_type: self,
                power_generated: 30000,
                temp_generated: -5000,
            },
        };
        assert(r.products@ =~= products_of(self));
        r
    }

    /// Classifies a pair of kinds; `None` when they only bounce.
    pub fn classify(a: MoleculeType, b: MoleculeType) -> (r: Option<ReactionType>)
        ensures
            r == reaction_of(a, b),
    {
        match (a, b) {
            (MoleculeType::Red, MoleculeType::Blue) | (MoleculeType::Blue, MoleculeType::Red) => {
                Some(ReactionType::RedBlue)
            },
            (MoleculeType::Red, MoleculeType::Gray) | (MoleculeType::Gray, MoleculeType::Red) => {
                Some(ReactionType::GrayRed)
            },
            (MoleculeType::Blue, MoleculeType::Blue) => Some(ReactionType::BlueBlue),
            (MoleculeType::Orange, MoleculeType::Orange) => Some(ReactionType::OrangeOrange),
            (MoleculeType::Gray, MoleculeType::Orange) | (
                MoleculeType::Orange,
                MoleculeType::Gray,
            ) => Some(ReactionType::GrayOrange),
            (MoleculeType::Purple, MoleculeType::Gray) | (
                MoleculeType::Gray,
                MoleculeType::Purple,
            ) => Some(ReactionType::GrayPurple),
            _ => None,
        }
    }
}

impl MoleculeType {
    /// Looks up the reaction of two kinds, in either order.
    pub fn can_react(a: MoleculeType, b: MoleculeType) -> (r: Option<Reaction>)
        ensures
            r.is_none() <==> reaction_of(a, b).is_none(),
            r.is_some() ==> r.unwrap().is_entry(reaction_of(a, b).unwrap()),
    {
        match ReactionType::classify(a, b) {
            Some(t) => Some(t.entry()),
            None => None,
        }
    }

    /// Number of animation frames of the kind's sprite.
    pub fn animation_frames(&self) -> (r: usize)
        ensures
            r == 8,
    {
        match self {
            MoleculeType::Red => 8,
            MoleculeType::Blue => 8,
            MoleculeType::Orange => 8,
            MoleculeType::Purple => 8,
            MoleculeType::Gray => 8,
        }
    }

    /// Mass of the kind, in thousandths of a unit.
    pub fn mass(&self) -> (r: u64)
        ensures
            r == mass_of(*self),
    {
        match self {
            MoleculeType::Red => 800,
            MoleculeType::Blue => 1600,
            MoleculeType::Orange => 2400,
            MoleculeType::Purple => 3200,
            MoleculeType::Gray => 400,
        }
    }

    /// Price of the kind's first purchase, in thousandths of a unit.
    pub fn base_cost(&self) -> (r: u64)
        ensures
            r == base_cost_of(*self),
    {
        match self {
            MoleculeType::Red => 2000,
            MoleculeType::Blue => 4000,
            MoleculeType::Orange => 20000,
            MoleculeType::Purple => 8000,
            MoleculeType::Gray => 1000,
        }
    }

    /// Display name of the kind.
    pub fn name(&self) -> (r: &'static str)
        ensures
            r@ == name_of(*self),
    {
        match self {
            MoleculeType::Red => "Red Molecule",
            MoleculeType::Blue => "Blue Molecule",
            MoleculeType::Orange => "Orange Molecule",
            MoleculeType::Purple => "Purple Molecule",
            MoleculeType::Gray => "Gray Molecule",
        }
    }
}

} // verus!
