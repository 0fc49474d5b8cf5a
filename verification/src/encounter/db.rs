use crate::campaign::CampaignId;
use crate::character::CharacterId;
use crate::clock::Timestamp;
use crate::encounter::{Encounter, EncounterState};
use crate::database::guarded;
use crate::error::Error;
use vstd::prelude::*;

verus! {

/// Whether the encounter at `i` is the current one of the campaign: of the
/// campaign's encounters that have not finished, the one created last, and of
/// several created at the same time the first.
pub open spec fn is_current(encounters: Seq<Encounter>, campaign_id: CampaignId, i: int) -> bool {
    &&& 0 <= i < encounters.len()
    &&& encounters[i].spec_is_active_in(campaign_id)
    &&& forall|j: int|
        0 <= j < encounters.len() && (#[trigger] encounters[j]).spec_is_active_in(campaign_id) ==> {
            ||| encounters[j].created_at.millis < encounters[i].created_at.millis
            ||| encounters[j].created_at.millis == encounters[i].created_at.millis && i <= j
        }
}

/// The place of the campaign's current encounter, if it has one.
pub open spec fn current_encounter_index(
    encounters: Seq<Encounter>,
    campaign_id: CampaignId,
) -> Option<int> {
    if exists|i: int| is_current(encounters, campaign_id, i) {
        Some(choose|i: int| is_current(encounters, campaign_id, i))
    } else {
        None
    }
}

/// The campaign's current encounter, if it has one.
pub open spec fn current_encounter(
    encounters: Seq<Encounter>,
    campaign_id: CampaignId,
) -> Option<Encounter> {
    match current_encounter_index(encounters, campaign_id) {
        Some(i) => Some(encounters[i]),
        None => None,
    }
}

/// A campaign has at most one current encounter.
pub proof fn lemma_current_is_unique(
    encounters: Seq<Encounter>,
    campaign_id: CampaignId,
    i: int,
    j: int,
)
    requires
        is_current(encounters, campaign_id, i),
        is_current(encounters, campaign_id, j),
    ensures
        i == j,
{
    let a = encounters[i];
    let b = encounters[j];
    assert(a.spec_is_active_in(campaign_id));
    assert(b.spec_is_active_in(campaign_id));
}

/// A campaign has a current encounter exactly where one of its encounters
/// has not finished.
pub proof fn lemma_current_exists_iff_active(encounters: Seq<Encounter>, campaign_id: CampaignId)
    ensures
        current_encounter_index(encounters, campaign_id) is Some <==> exists|j: int|
            0 <= j < encounters.len() && (#[trigger] encounters[j]).spec_is_active_in(
                campaign_id,
            ),
        current_encounter_index(encounters, campaign_id) matches Some(i) ==> is_current(
            encounters,
            campaign_id,
            i,
        ),
{
    if exists|j: int|
        0 <= j < encounters.len() && (#[trigger] encounters[j]).spec_is_active_in(campaign_id) {
        let j = choose|j: int|
            0 <= j < encounters.len() && (#[trigger] encounters[j]).spec_is_active_in(campaign_id);
        lemma_latest_active(encounters, campaign_id, encounters.len() as int, j);
        assert(encounters.take(encounters.len() as int) =~= encounters);
    }
    if current_encounter_index(encounters, campaign_id) is Some {
        let i = choose|i: int| is_current(encounters, campaign_id, i);
        assert(encounters[i].spec_is_active_in(campaign_id));
    }
}

/// Where an encounter before `n` has not finished, one of those before `n` is
/// the latest of them that have not.
proof fn lemma_latest_active(encounters: Seq<Encounter>, campaign_id: CampaignId, n: int, j: int)
    requires
        0 <= j < n <= encounters.len(),
        encounters[j].spec_is_active_in(campaign_id),
    ensures
        exists|i: int| is_current(encounters.take(n), campaign_id, i),
    decreases n,
{
    let prefix = encounters.take(n);
    let last = n - 1;
    if exists|k: int| 0 <= k < last && (#[trigger] encounters[k]).spec_is_active_in(campaign_id) {
        let k = choose|k: int|
            0 <= k < last && (#[trigger] encounters[k]).spec_is_active_in(campaign_id);
        lemma_latest_active(encounters, campaign_id, last, k);
        let b = choose|i: int| is_current(encounters.take(last), campaign_id, i);
        assert(encounters.take(last)[b] == encounters[b]);
        if encounters[last].spec_is_active_in(campaign_id) && encounters[last].created_at.millis
            > encounters[b].created_at.millis {
            assert forall|m: int|
                0 <= m < prefix.len() && (#[trigger] prefix[m]).spec_is_active_in(
                    campaign_id,
                ) implies {
                ||| prefix[m].created_at.millis < prefix[last].created_at.millis
                ||| prefix[m].created_at.millis == prefix[last].created_at.millis && last <= m
            } by {
                if m < last {
                    assert(encounters.take(last)[m].spec_is_active_in(campaign_id));
                }
            }
            assert(is_current(prefix, campaign_id, last));
        } else {
            assert forall|m: int|
                0 <= m < prefix.len() && (#[trigger] prefix[m]).spec_is_active_in(
                    campaign_id,
                ) implies {
                ||| prefix[m].created_at.millis < prefix[b].created_at.millis
                ||| prefix[m].created_at.millis == prefix[b].created_at.millis && b <= m
            } by {
                if m < last {
                    assert(encounters.take(last)[m].spec_is_active_in(campaign_id));
                }
            }
            assert(is_current(prefix, campaign_id, b));
        }
    } else {
        assert(j == last);
        assert(is_current(prefix, campaign_id, last));
    }
}

/// The place among `encounters` of the campaign's current encounter: of its
/// encounters that have not finished, the one created last.
pub fn fetch_current_encounter_by_campaign(
    encounters: &Vec<Encounter>,
    campaign_id: CampaignId,
) -> (found: Option<usize>)
    ensures
        match found {
            Some(i) => i < encounters@.len() && current_encounter_index(encounters@, campaign_id)
                == Some(i as int) && is_current(encounters@, campaign_id, i as int),
            None => current_encounter_index(encounters@, campaign_id) is None,
        },
{
    let mut best: Option<usize> = None;
    let mut i: usize = 0;
    while i < encounters.len()
        invariant
            i <= encounters@.len(),
            match best {
                Some(b) => {
                    &&& b < i
                    &&& encounters@[b as int].spec_is_active_in(campaign_id)
                    &&& forall|j: int|
                        0 <= j < i && (#[trigger] encounters@[j]).spec_is_active_in(campaign_id)
                            ==> {
                            ||| encounters@[j].created_at.millis
                                < encounters@[b as int].created_at.millis
                            ||| encounters@[j].created_at.millis
                                == encounters@[b as int].created_at.millis && b <= j
                        }
                },
                None => forall|j: int|
                    0 <= j < i ==> !(#[trigger] encounters@[j]).spec_is_active_in(campaign_id),
            },
        decreases encounters@.len() - i,
    {
        if encounters[i].is_active_in(campaign_id) {
            let later = match best {
                Some(b) => encounters[b].created_at.millis < encounters[i].created_at.millis,
                None => true,
            };
            if later {
                best = Some(i);
            }
        }
        i += 1;
    }
    proof {
        match best {
            Some(b) => {
                assert(is_current(encounters@, campaign_id, b as int));
                let c = choose|c: int| is_current(encounters@, campaign_id, c);
                lemma_current_is_unique(encounters@, campaign_id, b as int, c);
            },
            None => {
                if exists|c: int| is_current(encounters@, campaign_id, c) {
                    let c = choose|c: int| is_current(encounters@, campaign_id, c);
                    assert(encounters@[c].spec_is_active_in(campaign_id));
                }
            },
        }
    }
    best
}

/// Concludes a guarded write of an encounter's state. `matched_count` is the
/// number of stored records that bore the encounter's identifier and time of
/// modification when the write was tried: with none, the record had been
/// modified since it was read and nothing was written; otherwise the state
/// and the time of modification were written together.
pub fn update_encounter_state(
    encounter: Encounter,
    state: EncounterState,
    now: Timestamp,
    matched_count: u64,
) -> (r: Result<Encounter, Error>)
    ensures
        r == guarded(
            matched_count as nat,
            (Encounter { modified_at: now, state, ..encounter }),
        ),
{
    if matched_count == 0 {
        return Err(Error::ConcurrentModificationDetected);
    }
    let mut encounter = encounter;
    encounter.modified_at = now;
    encounter.state = state;
    Ok(encounter)
}

/// Concludes a guarded write of an encounter's state and characters, as
/// `update_encounter_state` does for the state alone.
pub fn update_encounter_state_and_characters(
    encounter: Encounter,
    state: EncounterState,
    character_ids: Vec<CharacterId>,
    now: Timestamp,
    matched_count: u64,
) -> (r: Result<Encounter, Error>)
    ensures
        r == guarded(
            matched_count as nat,
            (Encounter { modified_at: now, state, character_ids, ..encounter }),
        ),
{
    if matched_count == 0 {
        return Err(Error::ConcurrentModificationDetected);
    }
    let mut encounter = encounter;
    encounter.modified_at = now;
    encounter.state = state;
    encounter.character_ids = character_ids;
    Ok(encounter)
}

} // verus!
