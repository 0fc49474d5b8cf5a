use crate::campaign::CampaignId;
use crate::character::CharacterId;
use crate::clock::Timestamp;
use crate::typedid::{TypedId, TypedIdMarker};
use vstd::prelude::*;

pub mod db;
pub mod endpoints;
pub mod manager;

verus! {

/// Marks the identifiers of encounters.
#[derive(Copy, Clone, Debug, PartialEq, Eq)]
pub struct EncounterMarker;

pub type EncounterId = TypedId<EncounterMarker>;

pub type Round = i32;

impl TypedIdMarker for EncounterMarker {
    open spec fn spec_tag() -> Seq<char> {
        "ENC"@
    }

    fn tag() -> &'static str {
        "ENC"
    }
}

/// A combat session of a campaign. `character_ids` holds the roster while the
/// encounter gathers initiative, and the turn order once it has begun.
#[derive(Clone, Debug, PartialEq, Eq)]
pub struct Encounter {
    pub id: EncounterId,
    pub campaign_id: CampaignId,
    pub created_at: Timestamp,
    pub modified_at: Timestamp,
    pub character_ids: Vec<CharacterId>,
    pub state: EncounterState,
}

/// The phase of an encounter: it gathers initiative, then runs turn by turn,
/// then is over.
#[derive(Copy, Clone, Debug, PartialEq, Eq)]
pub enum EncounterState {
    Initiative,
    Turn { round: Round, character_id: CharacterId },
    Finished,
}

impl EncounterState {
    /// Whether the encounter is over.
    pub fn is_finished(&self) -> (r: bool)
        ensures
            r == (*self is Finished),
    {
        match self {
            EncounterState::Finished => true,
            _ => false,
        }
    }

    /// Whether two states are the same.
    pub fn same(&self, other: &EncounterState) -> (r: bool)
        ensures
            r == (*self == *other),
    {
        match (self, other) {
            (EncounterState::Initiative, EncounterState::Initiative) => true,
            (
                EncounterState::Turn { round: r1, character_id: c1 },
                EncounterState::Turn { round: r2, character_id: c2 },
            ) => *r1 == *r2 && *c1 == *c2,
            (EncounterState::Finished, EncounterState::Finished) => true,
            _ => false,
        }
    }
}

impl Encounter {
    /// Whether the encounter belongs to the campaign and has not finished.
    pub open spec fn spec_is_active_in(&self, campaign_id: CampaignId) -> bool {
        self.campaign_id == campaign_id && !(self.state is Finished)
    }

    /// Whether the encounter belongs to the campaign and has not finished.
    pub fn is_active_in(&self, campaign_id: CampaignId) -> (r: bool)
        ensures
            r == self.spec_is_active_in(campaign_id),
    {
        self.campaign_id == campaign_id && !self.state.is_finished()
    }

    /// Whether the character is on the encounter's roster or in its turn order.
    pub open spec fn spec_has_character(&self, character_id: CharacterId) -> bool {
        self.character_ids@.contains(character_id)
    }

    /// Whether the character is on the encounter's roster or in its turn order.
    pub fn has_character(&self, character_id: CharacterId) -> (r: bool)
        ensures
            r == self.spec_has_character(character_id),
    {
        let mut i: usize = 0;
        while i < self.character_ids.len()
            invariant
                i <= self.character_ids@.len(),
                forall|j: int| 0 <= j < i ==> self.character_ids@[j] != character_id,
            decreases self.character_ids@.len() - i,
        {
            if self.character_ids[i] == character_id {
                return true;
            }
            i += 1;
        }
        false
    }
}

} // verus!
