use crate::character::CharacterId;
use vstd::prelude::*;

verus! {

/// A request to create an encounter with a roster.
#[derive(Clone, Debug, PartialEq, Eq)]
pub struct CreateEncounterBody {
    pub character_ids: Vec<CharacterId>,
}

/// The answer to a request to begin an encounter.
#[derive(Clone, Debug, PartialEq, Eq)]
pub struct BeginEncounterResultBody {
    pub turn_order: Vec<CharacterId>,
}

} // verus!
