use crate::campaign::CampaignId;
use crate::character::{Character, CharacterId, Position};
use crate::clock::Timestamp;
use crate::database::guarded;
use crate::error::Error;
use crate::query::{first_match, lemma_first_index_found, lemma_first_index_missing};
use vstd::prelude::*;

verus! {

/// Whether the character bears the identifier and belongs to the campaign.
pub open spec fn is_character_of(
    character: Character,
    campaign_id: CampaignId,
    character_id: CharacterId,
) -> bool {
    character.id == character_id && character.spec_campaign_id() == Some(campaign_id)
}

/// The character of a campaign that an identifier names among `characters`:
/// the first that bears it and belongs to the campaign.
pub open spec fn character_in_campaign(
    characters: Seq<Character>,
    campaign_id: CampaignId,
    character_id: CharacterId,
) -> Option<Character> {
    first_match(characters, |c: Character| is_character_of(c, campaign_id, character_id))
}

/// The place among `characters` of the character of the campaign that the
/// identifier names.
pub fn fetch_character_by_campaign_and_id(
    characters: &Vec<Character>,
    campaign_id: CampaignId,
    character_id: CharacterId,
) -> (found: Option<usize>)
    ensures
        match found {
            Some(i) => i < characters@.len() && character_in_campaign(
                characters@,
                campaign_id,
                character_id,
            ) == Some(characters@[i as int]),
            None => character_in_campaign(characters@, campaign_id, character_id) is None,
        },
{
    let ghost p = |c: Character| is_character_of(c, campaign_id, character_id);
    let mut i: usize = 0;
    while i < characters.len()
        invariant
            i <= characters@.len(),
            forall|j: int| 0 <= j < i ==> !p(characters@[j]),
            p == (|c: Character| is_character_of(c, campaign_id, character_id)),
        decreases characters@.len() - i,
    {
        let character = &characters[i];
        let in_campaign = match character.owner.campaign_id() {
            Some(id) => id == campaign_id,
            None => false,
        };
        if character.id == character_id && in_campaign {
            proof {
                assert(p(characters@[i as int]));
                lemma_first_index_found(characters@, p, i as int);
            }
            return Some(i);
        }
        assert(!p(characters@[i as int]));
        i += 1;
    }
    proof {
        lemma_first_index_missing(characters@, p);
    }
    None
}

/// The first identifier of the roster that names no character of the campaign.
pub open spec fn roster_missing(
    roster: Seq<CharacterId>,
    characters: Seq<Character>,
    campaign_id: CampaignId,
) -> Option<CharacterId> {
    first_match(
        roster,
        |id: CharacterId| character_in_campaign(characters, campaign_id, id) is None,
    )
}

/// The first identifier of the roster that names no character of the campaign.
pub fn find_missing_character(
    roster: &Vec<CharacterId>,
    characters: &Vec<Character>,
    campaign_id: CampaignId,
) -> (missing: Option<CharacterId>)
    ensures
        missing == roster_missing(roster@, characters@, campaign_id),
{
    let ghost p = |id: CharacterId| character_in_campaign(characters@, campaign_id, id) is None;
    let mut i: usize = 0;
    while i < roster.len()
        invariant
            i <= roster@.len(),
            forall|j: int| 0 <= j < i ==> !p(roster@[j]),
            p == (|id: CharacterId| character_in_campaign(characters@, campaign_id, id) is None),
        decreases roster@.len() - i,
    {
        if fetch_character_by_campaign_and_id(characters, campaign_id, roster[i]).is_none() {
            proof {
                assert(p(roster@[i as int]));
                lemma_first_index_found(roster@, p, i as int);
            }
            return Some(roster[i]);
        }
        assert(!p(roster@[i as int]));
        i += 1;
    }
    proof {
        lemma_first_index_missing(roster@, p);
    }
    None
}

/// Concludes a guarded write of a character's position. `matched_count` is
/// the number of stored records that bore the character's identifier and time
/// of modification when the write was tried: with none, the record had been
/// modified since it was read and nothing was written; otherwise the position
/// and the time of modification were written together.
pub fn update_character_position(
    character: Character,
    position: Option<Position>,
    now: Timestamp,
    matched_count: u64,
) -> (r: Result<Character, Error>)
    ensures
        r == guarded(
            matched_count as nat,
            (Character { modified_at: now, position, ..character }),
        ),
{
    if matched_count == 0 {
        return Err(Error::ConcurrentModificationDetected);
    }
    let mut character = character;
    character.modified_at = now;
    character.position = position;
    Ok(character)
}

/// Concludes a guarded write of a character's hit points, as
/// `update_character_position` does for a position.
pub fn update_character_hit_points(
    character: Character,
    hit_points: i32,
    now: Timestamp,
    matched_count: u64,
) -> (r: Result<Character, Error>)
    ensures
        r == guarded(
            matched_count as nat,
            (Character { modified_at: now, current_hit_points: hit_points, ..character }),
        ),
{
    if matched_count == 0 {
        return Err(Error::ConcurrentModificationDetected);
    }
    let mut character = character;
    character.modified_at = now;
    character.current_hit_points = hit_points;
    Ok(character)
}

} // verus!
