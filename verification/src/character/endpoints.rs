use crate::character::RollModifier;
use vstd::prelude::*;

verus! {

/// A request to create a character.
#[derive(Clone, Debug, PartialEq, Eq)]
pub struct CreateCharacterBody {
    pub name: String,
}

/// The answer to a question of how a character makes a roll.
#[derive(Copy, Clone, Debug, PartialEq, Eq, Structural)]
pub struct RollStatsBody {
    pub modifier: RollModifier,
}

} // verus!
