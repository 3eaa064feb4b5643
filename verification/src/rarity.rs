//! The closed set of outcome categories and their fixed weights.

use vstd::prelude::*;

verus! {

/// What one attempt costs, in perins.
pub const COST_PER_ATTEMPT: u64 = 200;

/// Weight of `Uncommon`, out of 1000.
pub const WEIGHT_UNCOMMON: u64 = 530;

/// Weight of `Rare`, out of 1000.
pub const WEIGHT_RARE: u64 = 300;

/// Weight of `Epic`, out of 1000.
pub const WEIGHT_EPIC: u64 = 125;

/// Weight of `Legendary`, out of 1000.
pub const WEIGHT_LEGENDARY: u64 = 40;

/// Weight of `Ancient`, out of 1000.
pub const WEIGHT_ANCIENT: u64 = 5;

/// How many categories there are.
pub const RARITY_COUNT: usize = 5;

/// One outcome of a draw. The variants are listed from most to least likely.
#[derive(Clone, Copy, Debug, PartialEq, Eq, Structural)]
pub enum Rarity {
    Uncommon,
    Rare,
    Epic,
    Legendary,
    Ancient,
}

/// The weights of the five categories, in declaration order.
pub open spec fn weight_table() -> Seq<u64> {
    seq![530u64, 300u64, 125u64, 40u64, 5u64]
}

impl Rarity {
    /// Position of the category in the weight table.
    pub open spec fn position(self) -> int {
        match self {
            Rarity::Uncommon => 0,
            Rarity::Rare => 1,
            Rarity::Epic => 2,
            Rarity::Legendary => 3,
            Rarity::Ancient => 4,
        }
    }

    /// The category at a position of the weight table, if there is one.
    pub open spec fn at(i: int) -> Option<Rarity> {
        if i == 0 {
            Some(Rarity::Uncommon)
        } else if i == 1 {
            Some(Rarity::Rare)
        } else if i == 2 {
            Some(Rarity::Epic)
        } else if i == 3 {
            Some(Rarity::Legendary)
        } else if i == 4 {
            Some(Rarity::Ancient)
        } else {
            None
        }
    }

    /// The category's fixed weight.
    pub open spec fn spec_weight(self) -> u64 {
        weight_table()[self.position()]
    }

    /// Position of the category in the weight table.
    pub fn index(self) -> (i: usize)
        ensures
            i == self.position(),
            i < RARITY_COUNT,
            Rarity::at(i as int) == Some(self),
    {
        match self {
            Rarity::Uncommon => 0,
            Rarity::Rare => 1,
            Rarity::Epic => 2,
            Rarity::Legendary => 3,
            Rarity::Ancient => 4,
        }
    }

    /// The category at position `i`; `None` exactly when `i` is past the table.
    pub fn from_index(i: usize) -> (r: Option<Rarity>)
        ensures
            r == Rarity::at(i as int),
            r.is_some() <==> i < RARITY_COUNT,
            r matches Some(x) ==> x.position() == i,
    {
        if i == 0 {
            Some(Rarity::Uncommon)
        } else if i == 1 {
            Some(Rarity::Rare)
        } else if i == 2 {
            Some(Rarity::Epic)
        } else if i == 3 {
            Some(Rarity::Legendary)
        } else if i == 4 {
            Some(Rarity::Ancient)
        } else {
            None
        }
    }

    /// The category's fixed weight: positive, and 1000 over all five.
    pub fn weight(self) -> (w: u64)
        ensures
            w == self.spec_weight(),
            w > 0,
    {
        match self {
            Rarity::Uncommon => WEIGHT_UNCOMMON,
            Rarity::Rare => WEIGHT_RARE,
            Rarity::Epic => WEIGHT_EPIC,
            Rarity::Legendary => WEIGHT_LEGENDARY,
            Rarity::Ancient => WEIGHT_ANCIENT,
        }
    }

    /// The category's name as it is shown to the player.
    pub fn name(self) -> (s: &'static str)
        ensures
            s@ == self.spec_name(),
    {
        match self {
            Rarity::Uncommon => "Uncommon",
            Rarity::Rare => "Rare",
            Rarity::Epic => "Epic",
            Rarity::Legendary => "Legendary",
            Rarity::Ancient => "Ancient",
        }
    }

    /// The category's name, as a sequence of characters.
    pub open spec fn spec_name(self) -> Seq<char> {
        match self {
            Rarity::Uncommon => "Uncommon"@,
            Rarity::Rare => "Rare"@,
            Rarity::Epic => "Epic"@,
            Rarity::Legendary => "Legendary"@,
            Rarity::Ancient => "Ancient"@,
        }
    }
}

/// The weight table as a vector, in declaration order.
pub fn rarity_weights() -> (v: Vec<u64>)
    ensures
        v@ == weight_table(),
{
    let mut v: Vec<u64> = Vec::new();
    v.push(Rarity::Uncommon.weight());
    v.push(Rarity::Rare.weight());
    v.push(Rarity::Epic.weight());
    v.push(Rarity::Legendary.weight());
    v.push(Rarity::Ancient.weight());
    assert(v@ =~= weight_table());
    v
}

} // verus!
