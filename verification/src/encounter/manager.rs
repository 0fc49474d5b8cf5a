use crate::campaign::{Campaign, CampaignId};
use crate::character::db::{find_missing_character, roster_missing};
use crate::character::{Character, CharacterId};
use crate::clock::Timestamp;
use crate::encounter::db::{
    current_encounter, current_encounter_index, fetch_current_encounter_by_campaign, is_current,
    lemma_current_exists_iff_active,
};
use crate::encounter::{Encounter, EncounterId, EncounterState};
use crate::error::{Error, ErrorView};
use crate::operation::Operation;
use crate::query::{
    first_index, lemma_first_index_found, lemma_first_index_is_first, lemma_first_index_missing,
};
use vstd::prelude::*;
use vstd::seq_lib::{to_multiset_build, to_multiset_insert};

verus! {

/// Why an encounter cannot be created for a campaign from a roster, if it
/// cannot: the campaign has a current encounter, or a character of the roster
/// is no character of the campaign.
pub open spec fn creation_refused(
    campaign_id: CampaignId,
    encounters: Seq<Encounter>,
    characters: Seq<Character>,
    character_ids: Seq<CharacterId>,
) -> Option<ErrorView> {
    match current_encounter(encounters, campaign_id) {
        Some(current) => Some(
            ErrorView::CurrentEncounterAlreadyExists { campaign_id, encounter_id: current.id },
        ),
        None => match roster_missing(character_ids, characters, campaign_id) {
            Some(character_id) => Some(
                ErrorView::CharacterNotInCampaign { campaign_id, character_id },
            ),
            None => None,
        },
    }
}

/// Whether at most one of the encounters belongs to the campaign and has not
/// finished.
pub open spec fn at_most_one_active(encounters: Seq<Encounter>, campaign_id: CampaignId) -> bool {
    forall|i: int, j: int|
        0 <= i < encounters.len() && 0 <= j < encounters.len() && (
        #[trigger] encounters[i]).spec_is_active_in(campaign_id) && (
        #[trigger] encounters[j]).spec_is_active_in(campaign_id) ==> i == j
}

/// Creation keeps every campaign at no more than one encounter that has not
/// finished: an encounter is created for a campaign only where none of the
/// campaign's encounters is unfinished, and it belongs to that campaign alone.
pub proof fn law_creation_keeps_one_active(
    campaign_id: CampaignId,
    encounters: Seq<Encounter>,
    characters: Seq<Character>,
    character_ids: Seq<CharacterId>,
    created: Encounter,
    any_campaign_id: CampaignId,
)
    requires
        at_most_one_active(encounters, any_campaign_id),
        creation_refused(campaign_id, encounters, characters, character_ids) is None,
        created.campaign_id == campaign_id,
    ensures
        at_most_one_active(encounters.push(created), any_campaign_id),
        forall|i: int|
            0 <= i < encounters.len() ==> !(#[trigger] encounters[i]).spec_is_active_in(
                campaign_id,
            ),
{
    lemma_current_exists_iff_active(encounters, campaign_id);
    let after = encounters.push(created);
    assert forall|i: int, j: int|
        0 <= i < after.len() && 0 <= j < after.len() && (#[trigger] after[i]).spec_is_active_in(
            any_campaign_id,
        ) && (#[trigger] after[j]).spec_is_active_in(any_campaign_id) implies i == j by {
        if i < encounters.len() {
            assert(after[i] == encounters[i]);
        }
        if j < encounters.len() {
            assert(after[j] == encounters[j]);
        }
    }
}

/// A change to an encounter that has not finished keeps every campaign at no
/// more than one encounter that has not finished, whatever state the change
/// leaves the encounter in.
pub proof fn law_change_keeps_one_active(
    encounters: Seq<Encounter>,
    k: int,
    changed: Encounter,
    any_campaign_id: CampaignId,
)
    requires
        at_most_one_active(encounters, any_campaign_id),
        0 <= k < encounters.len(),
        changed.campaign_id == encounters[k].campaign_id,
        !(encounters[k].state is Finished),
    ensures
        at_most_one_active(encounters.update(k, changed), any_campaign_id),
{
    let after = encounters.update(k, changed);
    assert forall|i: int, j: int|
        0 <= i < after.len() && 0 <= j < after.len() && (#[trigger] after[i]).spec_is_active_in(
            any_campaign_id,
        ) && (#[trigger] after[j]).spec_is_active_in(any_campaign_id) implies i == j by {
        assert(encounters[k].spec_is_active_in(encounters[k].campaign_id));
        if i != k {
            assert(after[i] == encounters[i]);
        }
        if j != k {
            assert(after[j] == encounters[j]);
        }
    }
}

/// Where a campaign has at most one encounter that has not finished, that
/// encounter is its current one, and it has no current one where all have
/// finished.
pub proof fn law_current_is_the_unfinished_one(
    encounters: Seq<Encounter>,
    campaign_id: CampaignId,
    k: int,
)
    requires
        at_most_one_active(encounters, campaign_id),
        0 <= k < encounters.len(),
    ensures
        encounters[k].spec_is_active_in(campaign_id) <==> current_encounter_index(
            encounters,
            campaign_id,
        ) == Some(k),
{
    lemma_current_exists_iff_active(encounters, campaign_id);
    if encounters[k].spec_is_active_in(campaign_id) {
        let i = current_encounter_index(encounters, campaign_id)->Some_0;
        assert(encounters[i].spec_is_active_in(campaign_id));
    }
}

/// An encounter that has finished stays finished: neither beginning nor
/// finishing ever names it as the encounter to change.
pub proof fn law_finished_is_final(
    campaign_id: CampaignId,
    encounters: Seq<Encounter>,
    operations: Seq<Operation>,
)
    ensures
        beginning(campaign_id, encounters, operations) matches Ok((i, _)) ==> 0 <= i
            < encounters.len() && !(encounters[i].state is Finished),
        current_encounter_index(encounters, campaign_id) matches Some(i) ==> 0 <= i
            < encounters.len() && !(encounters[i].state is Finished),
{
    lemma_current_exists_iff_active(encounters, campaign_id);
}

/// Creates an encounter for a campaign with the given roster. `encounters`
/// are the encounters and `characters` the characters of the campaign. The
/// function gives the encounter to record: it gathers initiative, and was
/// created and last modified at `now`.
pub fn create_encounter_in_campaign(
    campaign: &Campaign,
    encounters: &Vec<Encounter>,
    characters: &Vec<Character>,
    character_ids: Vec<CharacterId>,
    now: Timestamp,
) -> (r: Result<Encounter, Error>)
    ensures
        match creation_refused(campaign.id, encounters@, characters@, character_ids@) {
            Some(error) => r matches Err(e) && e@ == error,
            None => r matches Ok(encounter) && encounter == (Encounter {
                id: encounter.id,
                campaign_id: campaign.id,
                created_at: now,
                modified_at: now,
                character_ids,
                state: EncounterState::Initiative,
            }),
        },
{
    if let Some(i) = fetch_current_encounter_by_campaign(encounters, campaign.id) {
        return Err(
            Error::CurrentEncounterAlreadyExists {
                campaign_id: campaign.id,
                encounter_id: encounters[i].id,
            },
        );
    }
    if let Some(character_id) = find_missing_character(&character_ids, characters, campaign.id) {
        return Err(Error::CharacterNotInCampaign { campaign_id: campaign.id, character_id });
    }
    Ok(
        Encounter {
            id: EncounterId::new(),
            campaign_id: campaign.id,
            created_at: now,
            modified_at: now,
            character_ids,
            state: EncounterState::Initiative,
        },
    )
}

/// The place among `encounters` of the campaign's current encounter.
pub fn get_current_encounter_in_campaign(campaign: &Campaign, encounters: &Vec<Encounter>) -> (r:
    Result<usize, Error>)
    ensures
        match current_encounter_index(encounters@, campaign.id) {
            Some(i) => r == Ok::<usize, Error>(i as usize) && i < encounters@.len(),
            None => r == Err::<usize, Error>(
                Error::CurrentEncounterNotFound { campaign_id: campaign.id },
            ),
        },
{
    match fetch_current_encounter_by_campaign(encounters, campaign.id) {
        Some(i) => Ok(i),
        None => Err(Error::CurrentEncounterNotFound { campaign_id: campaign.id }),
    }
}

/// A change to make to an encounter: its new state and, where they change
/// too, its new characters.
#[derive(Clone, Debug, PartialEq, Eq)]
pub struct EncounterChange {
    pub encounter_index: usize,
    pub state: EncounterState,
    pub character_ids: Option<Vec<CharacterId>>,
}

/// Finishes the campaign's current encounter. Gives the place of that
/// encounter among `encounters` and the state that is then to be written to
/// it, whatever state it is in.
pub fn finish_current_encounter_in_campaign(campaign: &Campaign, encounters: &Vec<Encounter>) -> (r:
    Result<EncounterChange, Error>)
    ensures
        match current_encounter_index(encounters@, campaign.id) {
            Some(i) => {
                &&& r matches Ok(change)
                &&& change.encounter_index == i
                &&& i < encounters@.len()
                &&& change.state == EncounterState::Finished
                &&& change.character_ids is None
            },
            None => r == Err::<EncounterChange, Error>(
                Error::CurrentEncounterNotFound { campaign_id: campaign.id },
            ),
        },
{
    match fetch_current_encounter_by_campaign(encounters, campaign.id) {
        Some(i) => Ok(
            EncounterChange {
                encounter_index: i,
                state: EncounterState::Finished,
                character_ids: None,
            },
        ),
        None => Err(Error::CurrentEncounterNotFound { campaign_id: campaign.id }),
    }
}

/// The initiative rolls on record for an encounter, each with the character
/// that rolled it, in the order of the operations.
pub open spec fn initiative_rolls(operations: Seq<Operation>, encounter_id: EncounterId) -> Seq<
    (CharacterId, i32),
>
    decreases operations.len(),
{
    if operations.len() == 0 {
        Seq::empty()
    } else {
        let rest = initiative_rolls(operations.drop_last(), encounter_id);
        let operation = operations.last();
        match operation.spec_initiative_roll() {
            Some(result) => if operation.spec_in_encounter(encounter_id) {
                rest.push((operation.character_id, result))
            } else {
                rest
            },
            None => rest,
        }
    }
}

/// Whether one of the rolls is the character's.
pub open spec fn has_roll(rolls: Seq<(CharacterId, i32)>, character_id: CharacterId) -> bool {
    exists|k: int| 0 <= k < rolls.len() && (#[trigger] rolls[k]).0 == character_id
}

/// The characters of the roster that have no roll among `rolls`, in the
/// roster's order.
pub open spec fn uninitiated(roster: Seq<CharacterId>, rolls: Seq<(CharacterId, i32)>) -> Seq<
    CharacterId,
>
    decreases roster.len(),
{
    if roster.len() == 0 {
        Seq::empty()
    } else {
        let rest = uninitiated(roster.drop_last(), rolls);
        if has_roll(rolls, roster.last()) {
            rest
        } else {
            rest.push(roster.last())
        }
    }
}

/// Where a roll of the given result enters rolls that are in descending
/// order: before the first that is no higher.
pub open spec fn insertion_point(sorted: Seq<(CharacterId, i32)>, result: i32) -> int {
    match first_index(sorted, |roll: (CharacterId, i32)| roll.1 <= result) {
        Some(k) => k,
        None => sorted.len() as int,
    }
}

/// The rolls in descending order of their results. Of rolls with the same
/// result, the later comes first.
pub open spec fn sort_rolls(rolls: Seq<(CharacterId, i32)>) -> Seq<(CharacterId, i32)>
    decreases rolls.len(),
{
    if rolls.len() == 0 {
        Seq::empty()
    } else {
        let sorted = sort_rolls(rolls.drop_last());
        sorted.insert(insertion_point(sorted, rolls.last().1), rolls.last())
    }
}

/// Whether the results of the rolls never rise from one roll to the next.
pub open spec fn is_descending(rolls: Seq<(CharacterId, i32)>) -> bool {
    forall|i: int, j: int| 0 <= i < j < rolls.len() ==> rolls[i].1 >= rolls[j].1
}

/// The characters of the rolls, in the order of the rolls.
pub open spec fn characters_of(rolls: Seq<(CharacterId, i32)>) -> Seq<CharacterId> {
    Seq::new(rolls.len(), |i: int| rolls[i].0)
}

/// The turn order that the rolls give: the characters by their rolls in
/// descending order.
pub open spec fn turn_order(rolls: Seq<(CharacterId, i32)>) -> Seq<CharacterId> {
    characters_of(sort_rolls(rolls))
}

/// The insertion point of a result lies within the rolls; every roll before
/// it is higher than the result, and the roll at it, if there is one, is not.
pub proof fn lemma_insertion_point(sorted: Seq<(CharacterId, i32)>, result: i32)
    ensures
        0 <= insertion_point(sorted, result) <= sorted.len(),
        forall|j: int| 0 <= j < insertion_point(sorted, result) ==> sorted[j].1 > result,
        insertion_point(sorted, result) < sorted.len() ==> sorted[insertion_point(
            sorted,
            result,
        )].1 <= result,
{
    lemma_first_index_is_first(sorted, |roll: (CharacterId, i32)| roll.1 <= result);
}

/// Sorted rolls are the rolls that were given, each as often as it was given,
/// and they are in descending order of their results.
pub proof fn lemma_sort_rolls(rolls: Seq<(CharacterId, i32)>)
    ensures
        sort_rolls(rolls).len() == rolls.len(),
        sort_rolls(rolls).to_multiset() == rolls.to_multiset(),
        is_descending(sort_rolls(rolls)),
    decreases rolls.len(),
{
    if rolls.len() == 0 {
        assert(rolls =~= Seq::empty());
    } else {
        let rest = rolls.drop_last();
        let roll = rolls.last();
        lemma_sort_rolls(rest);
        let sorted = sort_rolls(rest);
        let k = insertion_point(sorted, roll.1);
        lemma_insertion_point(sorted, roll.1);
        let next = sorted.insert(k, roll);
        sorted.insert_ensures(k, roll);
        to_multiset_insert(sorted, k, roll);
        assert(rest.push(roll) =~= rolls);
        to_multiset_build(rest, roll);
        assert(next.to_multiset() =~= sorted.to_multiset().insert(roll));
        assert(rolls.to_multiset() =~= rest.to_multiset().insert(roll));
        assert forall|i: int, j: int| 0 <= i < j < next.len() implies next[i].1 >= next[j].1 by {
            if j < k {
                assert(next[i] == sorted[i] && next[j] == sorted[j]);
            } else if j == k {
                assert(next[i] == sorted[i]);
            } else if i < k {
                assert(next[i] == sorted[i] && next[j] == sorted[j - 1]);
                assert(sorted[i].1 > roll.1);
                if k < j - 1 {
                    assert(sorted[k].1 >= sorted[j - 1].1);
                }
            } else if i == k {
                assert(next[j] == sorted[j - 1]);
                if k < j - 1 {
                    assert(sorted[k].1 >= sorted[j - 1].1);
                }
            } else {
                assert(next[i] == sorted[i - 1] && next[j] == sorted[j - 1]);
            }
        }
    }
}

/// The initiative rolls on record for an encounter.
pub fn collect_initiative_rolls(operations: &Vec<Operation>, encounter_id: EncounterId) -> (rolls:
    Vec<(CharacterId, i32)>)
    ensures
        rolls@ == initiative_rolls(operations@, encounter_id),
{
    let mut rolls: Vec<(CharacterId, i32)> = Vec::new();
    let mut i: usize = 0;
    assert(operations@.take(0) =~= Seq::empty());
    while i < operations.len()
        invariant
            i <= operations@.len(),
            rolls@ == initiative_rolls(operations@.take(i as int), encounter_id),
        decreases operations@.len() - i,
    {
        proof {
            let next = operations@.take(i + 1);
            assert(next.drop_last() =~= operations@.take(i as int));
            assert(next.last() == operations@[i as int]);
        }
        let operation = &operations[i];
        match operation.initiative_roll() {
            Some(result) => {
                if operation.in_encounter(encounter_id) {
                    rolls.push((operation.character_id, result));
                }
            },
            None => {},
        }
        i += 1;
    }
    assert(operations@.take(operations@.len() as int) =~= operations@);
    rolls
}

/// Whether one of the rolls is the character's.
pub fn character_has_roll(rolls: &Vec<(CharacterId, i32)>, character_id: CharacterId) -> (r: bool)
    ensures
        r == has_roll(rolls@, character_id),
{
    let mut k: usize = 0;
    while k < rolls.len()
        invariant
            k <= rolls@.len(),
            forall|j: int| 0 <= j < k ==> (#[trigger] rolls@[j]).0 != character_id,
        decreases rolls@.len() - k,
    {
        if rolls[k].0 == character_id {
            return true;
        }
        k += 1;
    }
    false
}

/// The characters of the roster that have no roll among `rolls`.
pub fn uninitiated_characters(roster: &Vec<CharacterId>, rolls: &Vec<(CharacterId, i32)>) -> (ids:
    Vec<CharacterId>)
    ensures
        ids@ == uninitiated(roster@, rolls@),
{
    let mut ids: Vec<CharacterId> = Vec::new();
    let mut i: usize = 0;
    assert(roster@.take(0) =~= Seq::empty());
    while i < roster.len()
        invariant
            i <= roster@.len(),
            ids@ == uninitiated(roster@.take(i as int), rolls@),
        decreases roster@.len() - i,
    {
        proof {
            let next = roster@.take(i + 1);
            assert(next.drop_last() =~= roster@.take(i as int));
            assert(next.last() == roster@[i as int]);
        }
        if !character_has_roll(rolls, roster[i]) {
            ids.push(roster[i]);
        }
        i += 1;
    }
    assert(roster@.take(roster@.len() as int) =~= roster@);
    ids
}

/// The rolls in descending order of their results; of rolls with the same
/// result, the later comes first.
pub fn sort_initiative_rolls(rolls: &Vec<(CharacterId, i32)>) -> (sorted: Vec<(CharacterId, i32)>)
    ensures
        sorted@ == sort_rolls(rolls@),
        sorted@.len() == rolls@.len(),
        sorted@.to_multiset() == rolls@.to_multiset(),
        is_descending(sorted@),
{
    let mut sorted: Vec<(CharacterId, i32)> = Vec::new();
    let mut i: usize = 0;
    assert(rolls@.take(0) =~= Seq::empty());
    while i < rolls.len()
        invariant
            i <= rolls@.len(),
            sorted@ == sort_rolls(rolls@.take(i as int)),
            sorted@.len() == i,
        decreases rolls@.len() - i,
    {
        proof {
            let next = rolls@.take(i + 1);
            assert(next.drop_last() =~= rolls@.take(i as int));
            assert(next.last() == rolls@[i as int]);
        }
        let roll = rolls[i];
        let ghost p = |r: (CharacterId, i32)| r.1 <= roll.1;
        let mut k: usize = 0;
        while k < sorted.len() && sorted[k].1 > roll.1
            invariant
                k <= sorted@.len(),
                forall|j: int| 0 <= j < k ==> !p(sorted@[j]),
                p == (|r: (CharacterId, i32)| r.1 <= roll.1),
            decreases sorted@.len() - k,
        {
            k += 1;
        }
        proof {
            if k < sorted@.len() {
                assert(p(sorted@[k as int]));
                lemma_first_index_found(sorted@, p, k as int);
            } else {
                lemma_first_index_missing(sorted@, p);
            }
            sorted@.insert_ensures(k as int, roll);
        }
        sorted.insert(k, roll);
        i += 1;
    }
    proof {
        assert(rolls@.take(rolls@.len() as int) =~= rolls@);
        lemma_sort_rolls(rolls@);
    }
    sorted
}

/// How the campaign's current encounter begins: the place of the encounter
/// and its turn order. The campaign must have a current encounter, every
/// character of its roster must have an initiative roll on record for it, and
/// there must be a roll at all.
pub open spec fn beginning(
    campaign_id: CampaignId,
    encounters: Seq<Encounter>,
    operations: Seq<Operation>,
) -> Result<(int, Seq<CharacterId>), ErrorView> {
    match current_encounter_index(encounters, campaign_id) {
        None => Err(ErrorView::CurrentEncounterNotFound { campaign_id }),
        Some(i) => {
            let encounter = encounters[i];
            let rolls = initiative_rolls(operations, encounter.id);
            let missing = uninitiated(encounter.character_ids@, rolls);
            if missing.len() > 0 {
                Err(
                    ErrorView::CharactersHaveNotRolledInitiative {
                        campaign_id,
                        encounter_id: encounter.id,
                        character_ids: missing,
                    },
                )
            } else if rolls.len() == 0 {
                Err(
                    ErrorView::NoCharactersInEncounter { campaign_id, encounter_id: encounter.id },
                )
            } else {
                Ok((i, turn_order(rolls)))
            }
        },
    }
}

/// An encounter begins only where every character of its roster has an
/// initiative roll on record, and its turn order then holds the characters of
/// the rolls on record, each as often as it rolled, by their rolls in
/// descending order.
pub proof fn law_beginning_follows_initiative(
    campaign_id: CampaignId,
    encounters: Seq<Encounter>,
    operations: Seq<Operation>,
)
    requires
        beginning(campaign_id, encounters, operations) is Ok,
    ensures
        ({
            let (i, order) = beginning(campaign_id, encounters, operations)->Ok_0;
            let encounter = encounters[i];
            let rolls = initiative_rolls(operations, encounter.id);
            &&& is_current(encounters, campaign_id, i)
            &&& forall|k: int|
                0 <= k < encounter.character_ids@.len() ==> has_roll(
                    rolls,
                    #[trigger] encounter.character_ids@[k],
                )
            &&& order == characters_of(sort_rolls(rolls))
            &&& order.len() == rolls.len()
            &&& sort_rolls(rolls).to_multiset() == rolls.to_multiset()
            &&& is_descending(sort_rolls(rolls))
        }),
{
    let (i, order) = beginning(campaign_id, encounters, operations)->Ok_0;
    let encounter = encounters[i];
    let rolls = initiative_rolls(operations, encounter.id);
    lemma_current_exists_iff_active(encounters, campaign_id);
    lemma_sort_rolls(rolls);
    lemma_uninitiated(encounter.character_ids@, rolls);
}

/// A character is among those that `uninitiated` gives exactly where it is
/// on the roster and has no roll.
pub proof fn lemma_uninitiated_contains(
    roster: Seq<CharacterId>,
    rolls: Seq<(CharacterId, i32)>,
    id: CharacterId,
)
    ensures
        uninitiated(roster, rolls).contains(id) <==> roster.contains(id) && !has_roll(rolls, id),
    decreases roster.len(),
{
    if roster.len() > 0 {
        let rest = roster.drop_last();
        let last = roster.last();
        lemma_uninitiated_contains(rest, rolls, id);
        let found = uninitiated(roster, rolls);
        let before = uninitiated(rest, rolls);
        if found.contains(id) {
            let k = choose|k: int| 0 <= k < found.len() && found[k] == id;
            if k < before.len() {
                assert(before[k] == id);
                assert(before.contains(id));
                let m = choose|m: int| 0 <= m < rest.len() && rest[m] == id;
                assert(roster[m] == id);
            } else {
                assert(roster[roster.len() - 1] == id);
            }
        }
        if roster.contains(id) && !has_roll(rolls, id) {
            let m = choose|m: int| 0 <= m < roster.len() && roster[m] == id;
            if m < rest.len() {
                assert(rest[m] == id);
                assert(rest.contains(id));
                let k = choose|k: int| 0 <= k < before.len() && before[k] == id;
                assert(found[k] == id);
            } else {
                assert(found[found.len() - 1] == id);
            }
        }
    }
}

/// Where `uninitiated` gives no character, every character of the roster
/// has a roll, and only there.
pub proof fn lemma_uninitiated(roster: Seq<CharacterId>, rolls: Seq<(CharacterId, i32)>)
    ensures
        uninitiated(roster, rolls).len() == 0 <==> forall|k: int|
            0 <= k < roster.len() ==> has_roll(rolls, #[trigger] roster[k]),
{
    let found = uninitiated(roster, rolls);
    if found.len() == 0 {
        assert forall|k: int| 0 <= k < roster.len() implies has_roll(
            rolls,
            #[trigger] roster[k],
        ) by {
            lemma_uninitiated_contains(roster, rolls, roster[k]);
            assert(roster.contains(roster[k]));
        }
    } else {
        lemma_uninitiated_contains(roster, rolls, found[0]);
        assert(found.contains(found[0]));
        let m = choose|m: int| 0 <= m < roster.len() && roster[m] == found[0];
        assert(!has_roll(rolls, roster[m]));
    }
}

/// Begins the campaign's current encounter. `encounters` are the encounters
/// of the campaign and `operations` the operations on record. Gives the place
/// of the encounter and what is then to be written to it: the turn order in
/// place of the roster, and the first turn of the first round, which the
/// character with the highest roll holds.
pub fn begin_current_encounter_in_campaign(
    campaign: &Campaign,
    encounters: &Vec<Encounter>,
    operations: &Vec<Operation>,
) -> (r: Result<EncounterChange, Error>)
    ensures
        match beginning(campaign.id, encounters@, operations@) {
            Err(error) => r matches Err(e) && e@ == error,
            Ok((i, order)) => {
                &&& r matches Ok(change)
                &&& change.encounter_index == i
                &&& i < encounters@.len()
                &&& order.len() > 0
                &&& change.state == (EncounterState::Turn { round: 0, character_id: order[0] })
                &&& change.character_ids matches Some(ids)
                &&& ids@ == order
            },
        },
{
    let index = match fetch_current_encounter_by_campaign(encounters, campaign.id) {
        Some(index) => index,
        None => {
            return Err(Error::CurrentEncounterNotFound { campaign_id: campaign.id });
        },
    };
    let encounter = &encounters[index];
    let initiative_rolls = collect_initiative_rolls(operations, encounter.id);
    let uninitiated_character_ids = uninitiated_characters(
        &encounter.character_ids,
        &initiative_rolls,
    );
    if uninitiated_character_ids.len() > 0 {
        return Err(
            Error::CharactersHaveNotRolledInitiative {
                campaign_id: campaign.id,
                encounter_id: encounter.id,
                character_ids: uninitiated_character_ids,
            },
        );
    }
    let sorted = sort_initiative_rolls(&initiative_rolls);
    let mut turn_order: Vec<CharacterId> = Vec::new();
    let mut i: usize = 0;
    while i < sorted.len()
        invariant
            i <= sorted@.len(),
            turn_order@ == characters_of(sorted@).take(i as int),
        decreases sorted@.len() - i,
    {
        turn_order.push(sorted[i].0);
        assert(characters_of(sorted@).take(i + 1) =~= characters_of(sorted@).take(i as int).push(
            sorted@[i as int].0,
        ));
        i += 1;
    }
    assert(characters_of(sorted@).take(sorted@.len() as int) =~= characters_of(sorted@));
    if turn_order.len() == 0 {
        return Err(
            Error::NoCharactersInEncounter {
                campaign_id: campaign.id,
                encounter_id: encounter.id,
            },
        );
    }
    let first_character = turn_order[0];
    Ok(
        EncounterChange {
            encounter_index: index,
            state: EncounterState::Turn { round: 0, character_id: first_character },
            character_ids: Some(turn_order),
        },
    )
}

} // verus!
