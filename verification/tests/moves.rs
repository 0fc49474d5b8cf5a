use kmdnd::campaign::{Campaign, CampaignId};
use kmdnd::character::manager::create_character;
use kmdnd::character::{Character, CharacterId, CharacterOwner, Position};
use kmdnd::clock::Timestamp;
use kmdnd::encounter::{Encounter, EncounterId, EncounterState};
use kmdnd::error::Error;
use kmdnd::operation::manager::move_in_current_encounter_in_campaign;
use kmdnd::operation::{Legality, Move, Operation, OperationId, OperationType, RollType};
use kmdnd::user::UserId;
use kmdnd::violations::{
    already_moved_feet, check_attack_range, check_cast_range, check_movement, Violation,
};

fn moves_at(millis: i64) -> Timestamp {
    Timestamp { millis }
}

fn moves_campaign() -> Campaign {
    Campaign {
        id: CampaignId::from_u128(1),
        name: "Table".to_string(),
        created_at: moves_at(1),
        modified_at: moves_at(1),
    }
}

fn moves_character(number: u128, position: Option<Position>) -> Character {
    let mut character = create_character(&moves_campaign(), "Someone".to_string(), moves_at(2));
    character.id = CharacterId::from_u128(number);
    character.position = position;
    character
}

fn moves_encounter(roster: Vec<CharacterId>, state: EncounterState) -> Encounter {
    Encounter {
        id: EncounterId::from_u128(100),
        campaign_id: CampaignId::from_u128(1),
        created_at: moves_at(3),
        modified_at: moves_at(3),
        character_ids: roster,
        state,
    }
}

fn recorded(
    encounter_id: u128,
    state: EncounterState,
    character_id: CharacterId,
    operation_type: OperationType,
) -> Operation {
    Operation {
        id: OperationId::new(),
        campaign_id: CampaignId::from_u128(1),
        encounter_id: Some(EncounterId::from_u128(encounter_id)),
        encounter_state: Some(state),
        character_id,
        created_at: moves_at(3),
        modified_at: moves_at(3),
        operation_type,
        interactions: vec![],
        legality: Legality::Legal,
    }
}

fn moved(feet: u64) -> OperationType {
    OperationType::Move(Move { to_position: Position { x: 0, y: 0, z: 0 }, feet })
}

#[test]
fn only_moves_of_the_character_in_its_turn_of_the_round_count() {
    let mover = CharacterId::from_u128(10);
    let other = CharacterId::from_u128(11);
    let turn = EncounterState::Turn { round: 2, character_id: mover };
    let operations = vec![
        recorded(100, turn, mover, moved(10)),
        recorded(100, turn, mover, moved(5)),
        recorded(100, turn, other, moved(7)),
        recorded(100, EncounterState::Turn { round: 1, character_id: mover }, mover, moved(8)),
        recorded(100, EncounterState::Turn { round: 2, character_id: other }, mover, moved(9)),
        recorded(100, EncounterState::Initiative, mover, moved(11)),
        recorded(101, turn, mover, moved(12)),
        recorded(100, turn, mover, OperationType::Roll { roll: RollType::Initiative, result: 13 }),
    ];
    assert_eq!(already_moved_feet(&operations, EncounterId::from_u128(100), 2, mover), 15);
    assert_eq!(already_moved_feet(&operations, EncounterId::from_u128(100), 1, mover), 8);
    assert_eq!(already_moved_feet(&operations, EncounterId::from_u128(100), 2, other), 0);
    assert_eq!(already_moved_feet(&vec![], EncounterId::from_u128(100), 2, mover), 0);
}

#[test]
fn feet_moved_add_up_beyond_sixty_four_bits() {
    let mover = CharacterId::from_u128(10);
    let turn = EncounterState::Turn { round: 0, character_id: mover };
    let operations =
        vec![recorded(100, turn, mover, moved(u64::MAX)), recorded(100, turn, mover, moved(u64::MAX))];
    assert_eq!(
        already_moved_feet(&operations, EncounterId::from_u128(100), 0, mover),
        2 * (u64::MAX as u128)
    );
}

#[test]
fn movement_is_exceeded_only_beyond_the_speed() {
    let mover = CharacterId::from_u128(10);
    assert_eq!(check_movement(mover, 30, 0, 30), vec![]);
    assert_eq!(check_movement(mover, 30, 20, 10), vec![]);
    assert_eq!(
        check_movement(mover, 30, 20, 11),
        vec![Violation::CharacterMovementExceeded {
            character_id: mover,
            maximum_movement: 30,
            current_movement: 20,
            request_movement: 11,
        }]
    );
    assert_eq!(check_movement(mover, 0, 0, 0), vec![]);
    assert_eq!(
        check_movement(mover, -5, 0, 0),
        vec![Violation::CharacterMovementExceeded {
            character_id: mover,
            maximum_movement: -5,
            current_movement: 0,
            request_movement: 0,
        }]
    );
    assert_eq!(
        check_movement(mover, i32::MAX, u128::MAX - u64::MAX as u128, u64::MAX),
        vec![Violation::CharacterMovementExceeded {
            character_id: mover,
            maximum_movement: i32::MAX as i64,
            current_movement: u128::MAX - u64::MAX as u128,
            request_movement: u64::MAX,
        }]
    );
}

#[test]
fn ranges_are_exceeded_only_beyond_the_range() {
    let source = CharacterId::from_u128(10);
    let target = CharacterId::from_u128(11);
    let here = Position { x: 0, y: 0, z: 0 };
    let five = Position { x: 3, y: 4, z: 0 };
    let six = Position { x: 0, y: 0, z: 6 };
    assert_eq!(check_attack_range(source, target, 5, &here, &five), vec![]);
    assert_eq!(
        check_attack_range(source, target, 5, &here, &six),
        vec![Violation::AttackNotInRange {
            request_character_id: source,
            target_character_id: target,
            attack_range: 5,
            current_range: 6,
        }]
    );
    assert_eq!(
        check_attack_range(source, target, -1, &here, &here),
        vec![Violation::AttackNotInRange {
            request_character_id: source,
            target_character_id: target,
            attack_range: -1,
            current_range: 0,
        }]
    );
    assert_eq!(check_cast_range(source, 150, &here, &Position { x: 150, y: 0, z: 0 }), vec![]);
    let far = Position { x: 151, y: 0, z: 0 };
    assert_eq!(
        check_cast_range(source, 150, &here, &far),
        vec![Violation::CastNotInRange {
            request_character_id: source,
            target_position: far,
            spell_range: 150,
            current_range: 151,
        }]
    );
}

#[test]
fn the_same_move_always_violates_the_same_rules() {
    let campaign = moves_campaign();
    let mover = moves_character(10, Some(Position { x: 1, y: 2, z: 3 }));
    let encounter =
        moves_encounter(vec![mover.id], EncounterState::Turn { round: 0, character_id: mover.id });
    let earlier = vec![recorded(100, encounter.state, mover.id, moved(25))];
    let characters = vec![mover];
    let attempt = || {
        move_in_current_encounter_in_campaign(
            &campaign,
            &encounter,
            &characters,
            &earlier,
            characters[0].id,
            Position { x: 1, y: 2, z: 13 },
            false,
            moves_at(4),
        )
    };
    let first = attempt();
    assert_eq!(
        first,
        Err(Error::OperationViolatesRules {
            violations: vec![Violation::CharacterMovementExceeded {
                character_id: characters[0].id,
                maximum_movement: 30,
                current_movement: 25,
                request_movement: 10,
            }]
        })
    );
    assert_eq!(attempt(), first);
}

#[test]
fn move_within_speed_is_legal() {
    let campaign = moves_campaign();
    let mover = moves_character(10, Some(Position { x: 0, y: 0, z: 0 }));
    let encounter =
        moves_encounter(vec![mover.id], EncounterState::Turn { round: 0, character_id: mover.id });
    let earlier = vec![recorded(100, encounter.state, mover.id, moved(25))];
    let characters = vec![mover];
    let to = Position { x: 3, y: 4, z: 0 };
    let operation = move_in_current_encounter_in_campaign(
        &campaign,
        &encounter,
        &characters,
        &earlier,
        characters[0].id,
        to,
        false,
        moves_at(4),
    )
    .unwrap();
    assert_eq!(operation.operation.legality, Legality::Legal);
    assert_eq!(
        operation.operation.operation_type,
        OperationType::Move(Move { to_position: to, feet: 5 })
    );
    assert_eq!(operation.position_change.character_id, characters[0].id);
    assert_eq!(operation.position_change.position, Some(to));
}

#[test]
fn move_outside_a_turn_is_not_checked_against_the_speed() {
    let campaign = moves_campaign();
    let mover = moves_character(10, Some(Position { x: 0, y: 0, z: 0 }));
    let encounter = moves_encounter(vec![mover.id], EncounterState::Initiative);
    let characters = vec![mover];
    let operation = move_in_current_encounter_in_campaign(
        &campaign,
        &encounter,
        &characters,
        &vec![],
        characters[0].id,
        Position { x: 1000, y: 0, z: 0 },
        false,
        moves_at(4),
    )
    .unwrap();
    assert_eq!(operation.operation.legality, Legality::Legal);
    assert_eq!(operation.operation.encounter_state, Some(EncounterState::Initiative));
}

#[test]
fn move_needs_a_character_of_the_campaign_in_the_encounter_with_a_position_in_its_turn() {
    let campaign = moves_campaign();
    let mover = moves_character(10, Some(Position { x: 0, y: 0, z: 0 }));
    let lost = moves_character(11, None);
    let outsider = moves_character(12, Some(Position { x: 0, y: 0, z: 0 }));
    let mut foreigner = moves_character(13, Some(Position { x: 0, y: 0, z: 0 }));
    foreigner.owner = CharacterOwner::Campaign(CampaignId::from_u128(2));
    let mut unowned = moves_character(14, Some(Position { x: 0, y: 0, z: 0 }));
    unowned.owner = CharacterOwner::User(UserId::from_u128(3));
    let mut played = moves_character(15, Some(Position { x: 0, y: 0, z: 0 }));
    played.owner = CharacterOwner::UserInCampaign(UserId::from_u128(3), campaign.id);
    let roster = vec![mover.id, lost.id, foreigner.id, unowned.id, played.id];
    let encounter =
        moves_encounter(roster, EncounterState::Turn { round: 0, character_id: mover.id });
    let characters = vec![mover, lost, outsider, foreigner, unowned, played];
    let to = Position { x: 1, y: 0, z: 0 };
    let attempt = |character_id: CharacterId| {
        move_in_current_encounter_in_campaign(
            &campaign,
            &encounter,
            &characters,
            &vec![],
            character_id,
            to,
            true,
            moves_at(4),
        )
    };
    let unknown = CharacterId::from_u128(99);
    assert_eq!(
        attempt(unknown),
        Err(Error::CharacterNotInCampaign { campaign_id: campaign.id, character_id: unknown })
    );
    assert_eq!(
        attempt(characters[3].id),
        Err(Error::CharacterNotInCampaign {
            campaign_id: campaign.id,
            character_id: characters[3].id
        })
    );
    assert_eq!(
        attempt(characters[4].id),
        Err(Error::CharacterNotInCampaign {
            campaign_id: campaign.id,
            character_id: characters[4].id
        })
    );
    assert_eq!(
        attempt(characters[2].id),
        Err(Error::CharacterNotInEncounter {
            campaign_id: campaign.id,
            encounter_id: encounter.id,
            character_id: characters[2].id
        })
    );
    assert_eq!(
        attempt(characters[1].id),
        Err(Error::CharacterDoesNotHavePosition { character_id: characters[1].id })
    );
    assert_eq!(
        attempt(characters[5].id),
        Err(Error::NotThisPlayersTurn {
            campaign_id: campaign.id,
            encounter_id: encounter.id,
            request_character_id: characters[5].id,
            current_character_id: characters[0].id,
        })
    );
    assert!(attempt(characters[0].id).is_ok());
}
