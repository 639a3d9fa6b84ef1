//! Rarity tiers: each tier fixes a selection weight and a secret-code length.

use vstd::prelude::*;

verus! {

/// The tier of an ability.
#[derive(PartialEq, Eq, Structural, Clone, Copy, Debug)]
pub enum CheatCodeRarity {
    /// Offered before anything else; never part of the weighted draw.
    Mandatory,
    Common,
    Rare,
    Legendary,
}

/// The largest weight any tier carries.
pub const MAX_WEIGHT: u8 = 10;

impl CheatCodeRarity {
    /// The relative likelihood of a tier in the weighted draw.
    pub open spec fn spec_weight(self) -> u8 {
        match self {
            CheatCodeRarity::Mandatory => 0,
            CheatCodeRarity::Common => 10,
            CheatCodeRarity::Rare => 5,
            CheatCodeRarity::Legendary => 2,
        }
    }

    /// The number of characters in a secret code of this tier.
    pub open spec fn spec_code_length(self) -> usize {
        match self {
            CheatCodeRarity::Mandatory => 4,
            CheatCodeRarity::Common => 4,
            CheatCodeRarity::Rare => 6,
            CheatCodeRarity::Legendary => 8,
        }
    }

    #[verifier::when_used_as_spec(spec_weight)]
    pub fn weight(self) -> (w: u8)
        ensures
            w == self.spec_weight(),
            w <= MAX_WEIGHT,
    {
        match self {
            CheatCodeRarity::Mandatory => 0,
            CheatCodeRarity::Common => 10,
            CheatCodeRarity::Rare => 5,
            CheatCodeRarity::Legendary => 2,
        }
    }

    #[verifier::when_used_as_spec(spec_code_length)]
    pub fn code_length(self) -> (len: usize)
        ensures
            len == self.spec_code_length(),
    {
        match self {
            CheatCodeRarity::Mandatory => 4,
            CheatCodeRarity::Common => 4,
            CheatCodeRarity::Rare => 6,
            CheatCodeRarity::Legendary => 8,
        }
    }
}

} // verus!
