use crate::arith::{add_clamped, clamp_i32};
use crate::campaign::{Campaign, CampaignId};
use crate::character::db::{character_in_campaign, fetch_character_by_campaign_and_id};
use crate::character::{Character, CharacterId, Position};
use crate::clock::Timestamp;
use crate::encounter::{Encounter, EncounterState};
use crate::error::{Error, ErrorView};
use crate::item::{Dice, Item};
use crate::operation::attack::{attack_outcome, attack_positions, Attack, AttackView};
use crate::operation::endpoints::{attack_method_of, ActionBody, ActionTypeBody};
use crate::operation::spell::{cast_outcome, cast_positions, Cast, CastView, FIREBALL_RANGE};
use crate::operation::{
    are_requests, legality_of, no_outcome, Action, ActionView, Interaction, InteractionId,
    InteractionOutcome, Legality, LegalityView, Move, Operation, OperationId, OperationType,
    OperationTypeView, OutcomeView, RollType,
};
use crate::query::{first_index, lemma_first_index_found, lemma_first_index_missing};
use crate::violations::{
    already_moved, already_moved_feet, attack_range_violations, cast_range_violations,
    check_movement, movement_violations, Violation,
};
use vstd::prelude::*;

verus! {

/// Whether an operation is recorded for the character in the campaign and the
/// encounter, with the state that the encounter is in, as created and last
/// modified at `now`.
pub open spec fn is_recorded(
    operation: Operation,
    campaign_id: CampaignId,
    encounter: Encounter,
    character_id: CharacterId,
    now: Timestamp,
) -> bool {
    &&& operation.campaign_id == campaign_id
    &&& operation.encounter_id == Some(encounter.id)
    &&& operation.encounter_state == Some(encounter.state)
    &&& operation.character_id == character_id
    &&& operation.created_at == now
    &&& operation.modified_at == now
}

/// The character that acts in an encounter: a character of the campaign that
/// takes part in the encounter and, while the encounter is in a turn, holds
/// that turn.
pub open spec fn acting_character(
    campaign_id: CampaignId,
    encounter: Encounter,
    characters: Seq<Character>,
    character_id: CharacterId,
) -> Result<Character, ErrorView> {
    match character_in_campaign(characters, campaign_id, character_id) {
        None => Err(ErrorView::CharacterNotInCampaign { campaign_id, character_id }),
        Some(character) => if !encounter.spec_has_character(character_id) {
            Err(
                ErrorView::CharacterNotInEncounter {
                    campaign_id,
                    encounter_id: encounter.id,
                    character_id,
                },
            )
        } else {
            match encounter.state {
                EncounterState::Turn { round, character_id: holder } => if holder != character_id {
                    Err(
                        ErrorView::NotThisPlayersTurn {
                            campaign_id,
                            encounter_id: encounter.id,
                            request_character_id: character_id,
                            current_character_id: holder,
                        },
                    )
                } else {
                    Ok(character)
                },
                _ => Ok(character),
            }
        },
    }
}

/// An action as it was submitted: what it is, the rolls it asks for first,
/// and the rules it violates.
pub struct Submission {
    pub action: ActionView,
    pub rolls: Seq<(CharacterId, RollType)>,
    pub violations: Seq<Violation>,
}

/// The submission that a request for an attack or a cast makes. `weapon_item`
/// is what the store holds under the identifier of the weapon that an attack
/// names. Of a request for any other action nothing is said.
pub open spec fn submitted_action(
    campaign_id: CampaignId,
    encounter: Encounter,
    characters: Seq<Character>,
    weapon_item: Option<Item>,
    body: ActionBody,
) -> Result<Submission, ErrorView> {
    match acting_character(campaign_id, encounter, characters, body.character_id) {
        Err(error) => Err(error),
        Ok(source_character) => match body.action_type {
            ActionTypeBody::Attack(attack) => match attack_method_of(attack.method, weapon_item) {
                Err(error) => Err(error@),
                Ok(method) => match attack_positions(
                    campaign_id,
                    encounter,
                    characters,
                    source_character,
                    attack.target_character_id,
                ) {
                    Err(error) => Err(error),
                    Ok((source_position, target_position)) => Ok(
                        Submission {
                            action: ActionView::Attack(
                                AttackView { method, targets: seq![attack.target_character_id] },
                            ),
                            rolls: seq![(source_character.id, RollType::Hit)],
                            violations: attack_range_violations(
                                source_character.id,
                                attack.target_character_id,
                                method.spec_normal_range() as i64,
                                source_position,
                                target_position,
                            ),
                        },
                    ),
                },
            },
            ActionTypeBody::CastSpell(cast) => match cast_positions(
                source_character,
                cast.name@,
                cast.target,
            ) {
                Err(error) => Err(error),
                Ok((source_position, cast_position)) => Ok(
                    Submission {
                        action: ActionView::CastSpell(
                            CastView { spell: "Fireball"@, target: cast.target },
                        ),
                        rolls: seq![(source_character.id, RollType::Damage)],
                        violations: cast_range_violations(
                            source_character.id,
                            FIREBALL_RANGE,
                            source_position,
                            cast_position,
                        ),
                    },
                ),
            },
            _ => arbitrary(),
        },
    }
}

/// Whether an operation with the given violations is refused: it is, where
/// there are violations and the caller did not ask to ignore them.
pub open spec fn is_refused(violations: Seq<Violation>, ignore_violations: bool) -> bool {
    !ignore_violations && violations.len() > 0
}

/// The violations that the outcome of a move or an action reports: those of
/// the operation that was accepted, or those that it was refused for. An
/// outcome that fails for another reason reports none.
pub open spec fn reported_violations(outcome: Result<Operation, Error>) -> Option<
    Seq<Violation>,
> {
    match outcome {
        Ok(operation) => match operation.legality@ {
            LegalityView::Legal => Some(Seq::empty()),
            LegalityView::IllegalPending { violations } => Some(violations),
            LegalityView::IllegalApproved { violations } => Some(violations),
        },
        Err(error) => match error@ {
            ErrorView::OperationViolatesRules { violations } => Some(violations),
            _ => None,
        },
    }
}

/// Whether `outcome` is what a request for an attack or a cast at `now`
/// leads to: the failure of the submission; or, with violations that are not
/// to be ignored, the refusal with all of them; or else the operation to
/// record, with the action, the rolls it asks for and its legality.
pub open spec fn is_action_outcome(
    outcome: Result<Operation, Error>,
    campaign_id: CampaignId,
    encounter: Encounter,
    characters: Seq<Character>,
    weapon_item: Option<Item>,
    body: ActionBody,
    now: Timestamp,
) -> bool {
    match submitted_action(campaign_id, encounter, characters, weapon_item, body) {
        Err(error) => outcome matches Err(e) && e@ == error,
        Ok(submission) => if is_refused(submission.violations, body.ignore_violations) {
            outcome matches Err(e) && e@ == (ErrorView::OperationViolatesRules {
                violations: submission.violations,
            })
        } else {
            &&& outcome matches Ok(operation)
            &&& is_recorded(operation, campaign_id, encounter, body.character_id, now)
            &&& operation.operation_type@ == OperationTypeView::Action(submission.action)
            &&& are_requests(operation.interactions@, submission.rolls)
            &&& operation.legality@ == legality_of(submission.violations)
        },
    }
}

/// The same action against the same state violates the same rules, whenever
/// it is submitted and whether or not violations are to be ignored.
pub proof fn law_action_violations_are_determined(
    first: Result<Operation, Error>,
    second: Result<Operation, Error>,
    campaign_id: CampaignId,
    encounter: Encounter,
    characters: Seq<Character>,
    weapon_item: Option<Item>,
    first_body: ActionBody,
    second_body: ActionBody,
    first_now: Timestamp,
    second_now: Timestamp,
)
    requires
        first_body.character_id == second_body.character_id,
        first_body.action_type == second_body.action_type,
        is_action_outcome(
            first,
            campaign_id,
            encounter,
            characters,
            weapon_item,
            first_body,
            first_now,
        ),
        is_action_outcome(
            second,
            campaign_id,
            encounter,
            characters,
            weapon_item,
            second_body,
            second_now,
        ),
    ensures
        reported_violations(first) == reported_violations(second),
{
}

/// Takes an attack or a cast for a character in an encounter. `characters`
/// are the characters of the campaign, and `weapon_item` is what the store
/// holds under the identifier of the weapon that an attack names. The function
/// gives the operation to record: legal, or pending with its violations where
/// the caller asked to ignore them. With violations that are not to be
/// ignored it fails with all of them, and there is nothing to record.
pub fn take_action_in_current_encounter_in_campaign(
    campaign: &Campaign,
    encounter: &Encounter,
    characters: &Vec<Character>,
    weapon_item: Option<Item>,
    body: ActionBody,
    now: Timestamp,
) -> (r: Result<Operation, Error>)
    requires
        body.action_type is Attack || body.action_type is CastSpell,
    ensures
        is_action_outcome(r, campaign.id, *encounter, characters@, weapon_item, body, now),
{
    let source_character = match fetch_character_by_campaign_and_id(
        characters,
        campaign.id,
        body.character_id,
    ) {
        Some(i) => &characters[i],
        None => {
            return Err(
                Error::CharacterNotInCampaign {
                    campaign_id: campaign.id,
                    character_id: body.character_id,
                },
            );
        },
    };
    if !encounter.has_character(body.character_id) {
        return Err(
            Error::CharacterNotInEncounter {
                campaign_id: campaign.id,
                encounter_id: encounter.id,
                character_id: body.character_id,
            },
        );
    }
    if let EncounterState::Turn { round, character_id } = encounter.state {
        if character_id != body.character_id {
            return Err(
                Error::NotThisPlayersTurn {
                    campaign_id: campaign.id,
                    encounter_id: encounter.id,
                    request_character_id: body.character_id,
                    current_character_id: character_id,
                },
            );
        }
    }
    let character_id = body.character_id;
    let ignore_violations = body.ignore_violations;
    let (action, interactions, violations) = match body.action_type {
        ActionTypeBody::Attack(attack) => {
            let attack_method = match attack.method.into_attack_method(weapon_item) {
                Ok(attack_method) => attack_method,
                Err(error) => {
                    return Err(error);
                },
            };
            match Attack::submit(
                campaign.id,
                encounter,
                characters,
                source_character,
                attack.target_character_id,
                attack_method,
            ) {
                Ok((attack, interactions, violations)) => (
                    Action::Attack(attack),
                    interactions,
                    violations,
                ),
                Err(error) => {
                    return Err(error);
                },
            }
        },
        ActionTypeBody::CastSpell(cast) => {
            match Cast::submit(source_character, cast.name, cast.target) {
                Ok((cast, interactions, violations)) => (
                    Action::CastSpell(cast),
                    interactions,
                    violations,
                ),
                Err(error) => {
                    return Err(error);
                },
            }
        },
        _ => {
            proof {
                assert(false);
            }
            vstd::pervasive::unreached()
        },
    };
    if !ignore_violations && violations.len() > 0 {
        return Err(Error::OperationViolatesRules { violations });
    }
    Ok(
        Operation {
            id: OperationId::new(),
            campaign_id: campaign.id,
            encounter_id: Some(encounter.id),
            encounter_state: Some(encounter.state),
            character_id,
            created_at: now,
            modified_at: now,
            operation_type: OperationType::Action(action),
            interactions,
            legality: Legality::of(violations),
        },
    )
}

/// A move as it was checked: the feet it covers, and the rules it violates.
/// The character must be one of the campaign, take part in the encounter and
/// have a position. While the encounter is in a turn, the character must hold
/// it, and the move is checked against the character's movement for the turn
/// by the operations given.
pub open spec fn checked_move(
    campaign_id: CampaignId,
    encounter: Encounter,
    characters: Seq<Character>,
    operations: Seq<Operation>,
    character_id: CharacterId,
    position: Position,
) -> Result<(u64, Seq<Violation>), ErrorView> {
    match character_in_campaign(characters, campaign_id, character_id) {
        None => Err(ErrorView::CharacterNotInCampaign { campaign_id, character_id }),
        Some(character) => if !encounter.spec_has_character(character_id) {
            Err(
                ErrorView::CharacterNotInEncounter {
                    campaign_id,
                    encounter_id: encounter.id,
                    character_id,
                },
            )
        } else {
            match character.position {
                None => Err(ErrorView::CharacterDoesNotHavePosition { character_id }),
                Some(current_position) => {
                    let feet = current_position.spec_distance(&position) as u64;
                    match encounter.state {
                        EncounterState::Turn { round, character_id: holder } => if holder
                            != character_id {
                            Err(
                                ErrorView::NotThisPlayersTurn {
                                    campaign_id,
                                    encounter_id: encounter.id,
                                    request_character_id: character_id,
                                    current_character_id: holder,
                                },
                            )
                        } else {
                            Ok(
                                (
                                    feet,
                                    movement_violations(
                                        holder,
                                        character.stats.speed,
                                        already_moved(operations, encounter.id, round, holder),
                                        feet,
                                    ),
                                ),
                            )
                        },
                        _ => Ok((feet, Seq::empty())),
                    }
                },
            }
        },
    }
}

/// Whether `outcome` is what a request at `now` to move a character leads
/// to: the failure of the check; or, with violations that are not to be
/// ignored, the refusal with all of them; or else the operation to record,
/// with the move and its legality.
pub open spec fn is_move_outcome(
    outcome: Result<Operation, Error>,
    campaign_id: CampaignId,
    encounter: Encounter,
    characters: Seq<Character>,
    operations: Seq<Operation>,
    character_id: CharacterId,
    position: Position,
    ignore_violations: bool,
    now: Timestamp,
) -> bool {
    match checked_move(campaign_id, encounter, characters, operations, character_id, position) {
        Err(error) => outcome matches Err(e) && e@ == error,
        Ok((feet, violations)) => if is_refused(violations, ignore_violations) {
            outcome matches Err(e) && e@ == (ErrorView::OperationViolatesRules { violations })
        } else {
            &&& outcome matches Ok(operation)
            &&& is_recorded(operation, campaign_id, encounter, character_id, now)
            &&& operation.operation_type == OperationType::Move(
                Move { to_position: position, feet },
            )
            &&& operation.interactions@ == Seq::<Interaction>::empty()
            &&& operation.legality@ == legality_of(violations)
        },
    }
}

/// The same move against the same state violates the same rules, whenever it
/// is submitted and whether or not violations are to be ignored.
pub proof fn law_move_violations_are_determined(
    first: Result<Operation, Error>,
    second: Result<Operation, Error>,
    campaign_id: CampaignId,
    encounter: Encounter,
    characters: Seq<Character>,
    operations: Seq<Operation>,
    character_id: CharacterId,
    position: Position,
    first_ignore_violations: bool,
    second_ignore_violations: bool,
    first_now: Timestamp,
    second_now: Timestamp,
)
    requires
        is_move_outcome(
            first,
            campaign_id,
            encounter,
            characters,
            operations,
            character_id,
            position,
            first_ignore_violations,
            first_now,
        ),
        is_move_outcome(
            second,
            campaign_id,
            encounter,
            characters,
            operations,
            character_id,
            position,
            second_ignore_violations,
            second_now,
        ),
    ensures
        reported_violations(first) == reported_violations(second),
{
}

/// A position to write to a character.
#[derive(Copy, Clone, Debug, PartialEq, Eq)]
pub struct PositionChange {
    pub character_id: CharacterId,
    pub position: Option<Position>,
}

/// What a move that was accepted leads to: the operation to record, and the
/// position to write to the character.
#[derive(Clone, Debug, PartialEq, Eq)]
pub struct MoveOutcome {
    pub operation: Operation,
    pub position_change: PositionChange,
}

/// The operation of a move that was accepted, or why the move failed.
pub open spec fn operation_of(outcome: Result<MoveOutcome, Error>) -> Result<Operation, Error> {
    match outcome {
        Ok(accepted) => Ok(accepted.operation),
        Err(error) => Err(error),
    }
}

/// Moves a character in an encounter to a position. `characters` are the
/// characters of the campaign and `operations` the operations on record. The
/// function gives the operation to record: legal, or pending with its
/// violations where the caller asked to ignore them; and the position to
/// write to the character, whether the move is legal or not. With violations
/// that are not to be ignored it fails with all of them, and there is nothing
/// to record or to write.
pub fn move_in_current_encounter_in_campaign(
    campaign: &Campaign,
    encounter: &Encounter,
    characters: &Vec<Character>,
    operations: &Vec<Operation>,
    character_id: CharacterId,
    position: Position,
    ignore_violations: bool,
    now: Timestamp,
) -> (r: Result<MoveOutcome, Error>)
    ensures
        r matches Ok(accepted) ==> accepted.position_change == (PositionChange {
            character_id,
            position: Some(position),
        }),
        is_move_outcome(
            operation_of(r),
            campaign.id,
            *encounter,
            characters@,
            operations@,
            character_id,
            position,
            ignore_violations,
            now,
        ),
{
    let current_character = match fetch_character_by_campaign_and_id(
        characters,
        campaign.id,
        character_id,
    ) {
        Some(i) => &characters[i],
        None => {
            return Err(Error::CharacterNotInCampaign { campaign_id: campaign.id, character_id });
        },
    };
    if !encounter.has_character(character_id) {
        return Err(
            Error::CharacterNotInEncounter {
                campaign_id: campaign.id,
                encounter_id: encounter.id,
                character_id,
            },
        );
    }
    let current_position = match &current_character.position {
        Some(position) => position,
        None => {
            return Err(Error::CharacterDoesNotHavePosition { character_id });
        },
    };
    let feet = current_position.distance(&position);
    let mut violations: Vec<Violation> = Vec::new();
    if let EncounterState::Turn { round, character_id: holder } = encounter.state {
        if character_id != holder {
            return Err(
                Error::NotThisPlayersTurn {
                    campaign_id: campaign.id,
                    encounter_id: encounter.id,
                    request_character_id: character_id,
                    current_character_id: holder,
                },
            );
        }
        let already_moved_feet = already_moved_feet(operations, encounter.id, round, holder);
        violations =
        check_movement(holder, current_character.stats.speed, already_moved_feet, feet);
    }
    if !ignore_violations && violations.len() > 0 {
        return Err(Error::OperationViolatesRules { violations });
    }
    Ok(
        MoveOutcome {
            operation: Operation {
                id: OperationId::new(),
                campaign_id: campaign.id,
                encounter_id: Some(encounter.id),
                encounter_state: Some(encounter.state),
                character_id,
                created_at: now,
                modified_at: now,
                operation_type: OperationType::Move(Move { to_position: position, feet }),
                interactions: Vec::new(),
                legality: Legality::of(violations),
            },
            position_change: PositionChange { character_id, position: Some(position) },
        },
    )
}

/// Whether the operation records an initiative roll of the character in the
/// encounter.
pub open spec fn is_initiative_roll_of(
    operation: Operation,
    encounter: Encounter,
    character_id: CharacterId,
) -> bool {
    &&& operation.spec_in_encounter(encounter.id)
    &&& operation.character_id == character_id
    &&& operation.spec_initiative_roll() is Some
}

/// Whether any of the operations records an initiative roll of the character
/// in the encounter.
pub open spec fn has_rolled_initiative(
    operations: Seq<Operation>,
    encounter: Encounter,
    character_id: CharacterId,
) -> bool {
    exists|i: int|
        0 <= i < operations.len() && is_initiative_roll_of(
            #[trigger] operations[i],
            encounter,
            character_id,
        )
}

/// Whether any of the operations records an initiative roll of the character
/// in the encounter.
pub fn character_already_rolled(
    operations: &Vec<Operation>,
    encounter: &Encounter,
    character_id: CharacterId,
) -> (r: bool)
    ensures
        r == has_rolled_initiative(operations@, *encounter, character_id),
{
    let mut i: usize = 0;
    while i < operations.len()
        invariant
            i <= operations@.len(),
            forall|j: int|
                0 <= j < i ==> !is_initiative_roll_of(
                    #[trigger] operations@[j],
                    *encounter,
                    character_id,
                ),
        decreases operations@.len() - i,
    {
        let operation = &operations[i];
        if operation.in_encounter(encounter.id) && operation.character_id == character_id
            && operation.initiative_roll().is_some() {
            return true;
        }
        i += 1;
    }
    false
}

/// The character that may roll initiative in an encounter: a character of the
/// campaign that takes part in the encounter and has no initiative roll on
/// record for it.
pub open spec fn rolling_character(
    campaign_id: CampaignId,
    encounter: Encounter,
    characters: Seq<Character>,
    operations: Seq<Operation>,
    character_id: CharacterId,
) -> Result<Character, ErrorView> {
    match character_in_campaign(characters, campaign_id, character_id) {
        None => Err(ErrorView::CharacterNotInCampaign { campaign_id, character_id }),
        Some(character) => if !encounter.spec_has_character(character_id) {
            Err(
                ErrorView::CharacterNotInEncounter {
                    campaign_id,
                    encounter_id: encounter.id,
                    character_id,
                },
            )
        } else if has_rolled_initiative(operations, encounter, character_id) {
            Err(
                ErrorView::CharacterAlreadyRolledInitiative {
                    campaign_id,
                    encounter_id: encounter.id,
                    character_id,
                },
            )
        } else {
            Ok(character)
        },
    }
}

/// The initiative of a character that threw `face` on the die: the face and
/// the character's initiative modifier, held within `i32`.
pub open spec fn initiative_result(character: Character, face: i32) -> i32 {
    clamp_i32(face + character.stats.initiative) as i32
}

/// Records the initiative of a character that threw `face` on the twenty-sided
/// die. `characters` are the characters of the campaign and `operations` the
/// operations on record. Gives the operation to record, which holds the result.
pub fn record_initiative_roll(
    campaign: &Campaign,
    encounter: &Encounter,
    characters: &Vec<Character>,
    operations: &Vec<Operation>,
    character_id: CharacterId,
    face: i32,
    now: Timestamp,
) -> (r: Result<Operation, Error>)
    ensures
        match rolling_character(campaign.id, *encounter, characters@, operations@, character_id) {
            Err(error) => r matches Err(e) && e@ == error,
            Ok(character) => {
                &&& r matches Ok(operation)
                &&& is_recorded(operation, campaign.id, *encounter, character_id, now)
                &&& operation.operation_type == (OperationType::Roll {
                    roll: RollType::Initiative,
                    result: initiative_result(character, face),
                })
                &&& operation.interactions@ == Seq::<Interaction>::empty()
                &&& operation.legality@ == LegalityView::Legal
            },
        },
{
    let character = match fetch_character_by_campaign_and_id(
        characters,
        campaign.id,
        character_id,
    ) {
        Some(i) => &characters[i],
        None => {
            return Err(Error::CharacterNotInCampaign { campaign_id: campaign.id, character_id });
        },
    };
    if !encounter.has_character(character_id) {
        return Err(
            Error::CharacterNotInEncounter {
                campaign_id: campaign.id,
                encounter_id: encounter.id,
                character_id,
            },
        );
    }
    if character_already_rolled(operations, encounter, character_id) {
        return Err(
            Error::CharacterAlreadyRolledInitiative {
                campaign_id: campaign.id,
                encounter_id: encounter.id,
                character_id,
            },
        );
    }
    let result = add_clamped(face, character.stats.initiative);
    Ok(
        Operation {
            id: OperationId::new(),
            campaign_id: campaign.id,
            encounter_id: Some(encounter.id),
            encounter_state: Some(encounter.state),
            character_id,
            created_at: now,
            modified_at: now,
            operation_type: OperationType::Roll { roll: RollType::Initiative, result },
            interactions: Vec::new(),
            legality: Legality::Legal,
        },
    )
}

/// Rolls initiative for a character in an encounter: throws the twenty-sided
/// die and records the result as `record_initiative_roll` does. Whatever roll
/// is asked for, it is initiative that is rolled.
pub fn roll_in_current_encounter_in_campaign(
    campaign: &Campaign,
    encounter: &Encounter,
    characters: &Vec<Character>,
    operations: &Vec<Operation>,
    character_id: CharacterId,
    roll: RollType,
    now: Timestamp,
) -> (r: Result<Operation, Error>)
    ensures
        match rolling_character(campaign.id, *encounter, characters@, operations@, character_id) {
            Err(error) => r matches Err(e) && e@ == error,
            Ok(character) => {
                &&& r matches Ok(operation)
                &&& is_recorded(operation, campaign.id, *encounter, character_id, now)
                &&& exists|face: i32|
                    1 <= face <= 20 && operation.operation_type == (OperationType::Roll {
                        roll: RollType::Initiative,
                        result: #[trigger] initiative_result(character, face),
                    })
                &&& operation.interactions@ == Seq::<Interaction>::empty()
                &&& operation.legality@ == LegalityView::Legal
            },
        },
{
    let face = Dice::D20.roll();
    record_initiative_roll(campaign, encounter, characters, operations, character_id, face, now)
}

/// What the submission of a roll's result leads to: the place of the
/// interaction among those of the operation, and the outcome of the roll.
/// The interaction must be one of the operation's, the character that
/// submits the result the one it asks, and the interaction without a result.
pub open spec fn resolution(
    campaign_id: CampaignId,
    encounter: Encounter,
    characters: Seq<Character>,
    operation: Operation,
    interaction_id: InteractionId,
    character_id: CharacterId,
    result: i32,
) -> Result<(int, OutcomeView), ErrorView> {
    match first_index(operation.interactions@, |i: Interaction| i.id == interaction_id) {
        None => Err(
            ErrorView::InteractionNotFound { operation_id: operation.id, interaction_id },
        ),
        Some(index) => {
            let interaction = operation.interactions@[index];
            if interaction.character_id != character_id {
                Err(
                    ErrorView::WrongCharacterForInteraction {
                        operation_id: operation.id,
                        interaction_id,
                        expected_character_id: interaction.character_id,
                        request_character_id: character_id,
                    },
                )
            } else if interaction.result is Some {
                Err(
                    ErrorView::InteractionAlreadyResolved {
                        operation_id: operation.id,
                        interaction_id,
                    },
                )
            } else {
                match match operation.operation_type {
                    OperationType::Action(Action::Attack(attack)) => attack_outcome(
                        campaign_id,
                        characters,
                        attack.targets@[0],
                        interaction,
                        result,
                    ),
                    OperationType::Action(Action::CastSpell(cast)) => cast_outcome(
                        cast@,
                        campaign_id,
                        encounter,
                        characters,
                        operation.interactions@,
                        interaction,
                        result,
                    ),
                    _ => Ok(no_outcome()),
                } {
                    Ok(outcome) => Ok((index, outcome)),
                    Err(error) => Err(error),
                }
            }
        },
    }
}

/// A result is written once: the submission of a result for an interaction
/// that has one fails, whatever the result and whoever submits it, and leads
/// to nothing.
pub proof fn law_result_is_written_once(
    campaign_id: CampaignId,
    encounter: Encounter,
    characters: Seq<Character>,
    operation: Operation,
    interaction_id: InteractionId,
    character_id: CharacterId,
    result: i32,
    k: int,
)
    requires
        0 <= k < operation.interactions@.len(),
        operation.interactions@[k].id == interaction_id,
        forall|j: int| 0 <= j < k ==> operation.interactions@[j].id != interaction_id,
        operation.interactions@[k].result is Some,
    ensures
        resolution(
            campaign_id,
            encounter,
            characters,
            operation,
            interaction_id,
            character_id,
            result,
        ) is Err,
{
    lemma_first_index_found(
        operation.interactions@,
        |i: Interaction| i.id == interaction_id,
        k,
    );
}

/// The place of the first of the interactions that bears the identifier.
pub fn find_interaction(interactions: &Vec<Interaction>, interaction_id: InteractionId) -> (found:
    Option<usize>)
    ensures
        match found {
            Some(i) => i < interactions@.len() && first_index(
                interactions@,
                |i: Interaction| i.id == interaction_id,
            ) == Some(i as int),
            None => first_index(interactions@, |i: Interaction| i.id == interaction_id) is None,
        },
{
    let ghost p = |i: Interaction| i.id == interaction_id;
    let mut index: usize = 0;
    while index < interactions.len()
        invariant
            index <= interactions@.len(),
            forall|j: int| 0 <= j < index ==> !p(interactions@[j]),
            p == (|i: Interaction| i.id == interaction_id),
        decreases interactions@.len() - index,
    {
        if interactions[index].id == interaction_id {
            proof {
                assert(p(interactions@[index as int]));
                lemma_first_index_found(interactions@, p, index as int);
            }
            return Some(index);
        }
        assert(!p(interactions@[index as int]));
        index += 1;
    }
    proof {
        lemma_first_index_missing(interactions@, p);
    }
    None
}

/// The place of an interaction among those of an operation, and what its
/// result leads to.
#[derive(Clone, Debug, PartialEq, Eq)]
pub struct Resolution {
    pub interaction_index: usize,
    pub outcome: InteractionOutcome,
}

impl Operation {
    /// Whether results can be submitted to the operation: an attack must
    /// have a target.
    pub open spec fn spec_is_resolvable(&self) -> bool {
        self.operation_type matches OperationType::Action(Action::Attack(attack))
            ==> attack.targets@.len() > 0
    }

    /// Whether results can be submitted to the operation.
    pub fn is_resolvable(&self) -> (r: bool)
        ensures
            r == self.spec_is_resolvable(),
    {
        match &self.operation_type {
            OperationType::Action(Action::Attack(attack)) => attack.targets.len() > 0,
            _ => true,
        }
    }
}

/// Submits the result of a roll that an interaction of the operation asked
/// for and has no result for yet. `characters` are the characters of the
/// campaign. Gives the place of the interaction and what the result leads to;
/// the hit points, if any changed, are then to be written to the character,
/// the result to the interaction, and the new interactions, if there are any,
/// to be appended to the operation.
pub fn submit_interaction_result_to_operation(
    campaign: &Campaign,
    encounter: &Encounter,
    characters: &Vec<Character>,
    operation: &Operation,
    interaction_id: InteractionId,
    character_id: CharacterId,
    result: i32,
) -> (r: Result<Resolution, Error>)
    requires
        operation.spec_is_resolvable(),
    ensures
        match resolution(
            campaign.id,
            *encounter,
            characters@,
            *operation,
            interaction_id,
            character_id,
            result,
        ) {
            Err(error) => r matches Err(e) && e@ == error,
            Ok((index, outcome)) => {
                &&& r matches Ok(resolved)
                &&& resolved.interaction_index == index
                &&& index < operation.interactions@.len()
                &&& resolved.outcome.is(outcome)
            },
        },
{
    let index = match find_interaction(&operation.interactions, interaction_id) {
        Some(index) => index,
        None => {
            return Err(Error::InteractionNotFound { operation_id: operation.id, interaction_id });
        },
    };
    let interaction = &operation.interactions[index];
    if interaction.character_id != character_id {
        return Err(
            Error::WrongCharacterForInteraction {
                operation_id: operation.id,
                interaction_id: interaction.id,
                expected_character_id: interaction.character_id,
                request_character_id: character_id,
            },
        );
    }
    if interaction.result.is_some() {
        return Err(
            Error::InteractionAlreadyResolved {
                operation_id: operation.id,
                interaction_id: interaction.id,
            },
        );
    }
    let outcome = match &operation.operation_type {
        OperationType::Action(Action::Attack(attack)) => {
            match attack.handle_interaction_result(campaign.id, characters, interaction, result) {
                Ok(outcome) => outcome,
                Err(error) => {
                    return Err(error);
                },
            }
        },
        OperationType::Action(Action::CastSpell(cast)) => {
            match cast.handle_interaction_result(
                campaign.id,
                encounter,
                characters,
                operation,
                interaction,
                result,
            ) {
                Ok(outcome) => outcome,
                Err(error) => {
                    return Err(error);
                },
            }
        },
        _ => InteractionOutcome { interactions: Vec::new(), hit_points: None },
    };
    Ok(Resolution { interaction_index: index, outcome })
}

/// The violations of an operation that awaits the referee's judgement.
pub open spec fn pending_violations(operation: Operation) -> Option<Seq<Violation>> {
    match operation.legality {
        Legality::IllegalPending { violations } => Some(violations@),
        _ => None,
    }
}

/// Approves an operation that awaits the referee's judgement. Gives the
/// legality that is then to be written to the operation: approved, with the
/// same violations. An operation that is not pending cannot be approved.
pub fn approve_illegal_operation(operation: &Operation) -> (r: Result<Legality, Error>)
    ensures
        match pending_violations(*operation) {
            Some(violations) => r matches Ok(legality) && legality@ == (
            LegalityView::IllegalApproved { violations }),
            None => r matches Err(e) && e@ == (ErrorView::OperationIsNotPending {
                operation_id: operation.id,
                legality: operation.legality@,
            }),
        },
{
    match &operation.legality {
        Legality::IllegalPending { violations } => Ok(
            Legality::IllegalApproved { violations: copy_violations(violations) },
        ),
        legality => Err(
            Error::OperationIsNotPending {
                operation_id: operation.id,
                legality: legality.duplicate(),
            },
        ),
    }
}

/// Rejects an operation that awaits the referee's judgement. Gives the
/// identifier of the operation, whose record is then to be deleted; what the
/// operation did is not undone. An operation that is not pending cannot be
/// rejected.
pub fn reject_illegal_operation(operation: &Operation) -> (r: Result<OperationId, Error>)
    ensures
        match pending_violations(*operation) {
            Some(_) => r == Ok::<OperationId, Error>(operation.id),
            None => r matches Err(e) && e@ == (ErrorView::OperationIsNotPending {
                operation_id: operation.id,
                legality: operation.legality@,
            }),
        },
{
    match &operation.legality {
        Legality::IllegalPending { .. } => Ok(operation.id),
        legality => Err(
            Error::OperationIsNotPending {
                operation_id: operation.id,
                legality: legality.duplicate(),
            },
        ),
    }
}

/// A copy of the violations.
pub fn copy_violations(violations: &Vec<Violation>) -> (copy: Vec<Violation>)
    ensures
        copy@ == violations@,
{
    let mut copy: Vec<Violation> = Vec::new();
    let mut i: usize = 0;
    while i < violations.len()
        invariant
            i <= violations@.len(),
            copy@ == violations@.take(i as int),
        decreases violations@.len() - i,
    {
        copy.push(violations[i]);
        assert(violations@.take(i + 1) =~= violations@.take(i as int).push(violations@[i as int]));
        i += 1;
    }
    assert(violations@.take(violations@.len() as int) =~= violations@);
    copy
}

impl Legality {
    /// A copy of the legality.
    pub fn duplicate(&self) -> (copy: Legality)
        ensures
            copy@ == self@,
    {
        match self {
            Legality::Legal => Legality::Legal,
            Legality::IllegalPending { violations } => Legality::IllegalPending {
                violations: copy_violations(violations),
            },
            Legality::IllegalApproved { violations } => Legality::IllegalApproved {
                violations: copy_violations(violations),
            },
        }
    }
}

} // verus!
