use kmdnd::campaign::{Campaign, CampaignId};
use kmdnd::character::manager::create_character;
use kmdnd::character::{Character, CharacterId, Position};
use kmdnd::clock::Timestamp;
use kmdnd::database::matched_count;
use kmdnd::encounter::{Encounter, EncounterId, EncounterState};
use kmdnd::error::Error;
use kmdnd::item::{
    Armor, ArmorType, DamageType, Dice, Item, ItemId, ItemType, Range, Weapon, WeaponProperty,
};
use kmdnd::operation::attack::{Attack, AttackMethod};
use kmdnd::operation::db::{
    update_operation_interaction_result, update_operation_legality,
    update_operation_push_interactions,
};
use kmdnd::operation::endpoints::{ActionBody, ActionTypeBody, AttackBody, AttackMethodBody};
use kmdnd::operation::manager::{
    approve_illegal_operation, character_already_rolled, find_interaction, record_initiative_roll,
    reject_illegal_operation, roll_in_current_encounter_in_campaign,
    submit_interaction_result_to_operation, take_action_in_current_encounter_in_campaign,
};
use kmdnd::operation::{
    apply_damage, Action, Interaction, InteractionId, Legality, Move, Operation, OperationId,
    OperationType, RollType,
};
use kmdnd::violations::Violation;

fn ops_at(millis: i64) -> Timestamp {
    Timestamp { millis }
}

fn ops_campaign() -> Campaign {
    Campaign {
        id: CampaignId::from_u128(1),
        name: "Table".to_string(),
        created_at: ops_at(1),
        modified_at: ops_at(1),
    }
}

fn ops_character(number: u128, position: Option<Position>) -> Character {
    let mut character = create_character(&ops_campaign(), "Someone".to_string(), ops_at(2));
    character.id = CharacterId::from_u128(number);
    character.position = position;
    character
}

fn ops_encounter(roster: Vec<CharacterId>, state: EncounterState) -> Encounter {
    Encounter {
        id: EncounterId::from_u128(100),
        campaign_id: CampaignId::from_u128(1),
        created_at: ops_at(3),
        modified_at: ops_at(3),
        character_ids: roster,
        state,
    }
}

fn ops_operation(operation_type: OperationType, interactions: Vec<Interaction>) -> Operation {
    Operation {
        id: OperationId::from_u128(900),
        campaign_id: CampaignId::from_u128(1),
        encounter_id: Some(EncounterId::from_u128(100)),
        encounter_state: Some(EncounterState::Initiative),
        character_id: CharacterId::from_u128(10),
        created_at: ops_at(3),
        modified_at: ops_at(3),
        operation_type,
        interactions,
        legality: Legality::Legal,
    }
}

fn ops_interaction(number: u128, roller: u128, roll_type: RollType) -> Interaction {
    Interaction {
        id: InteractionId::from_u128(number),
        character_id: CharacterId::from_u128(roller),
        roll_type,
        result: None,
    }
}

fn here() -> Position {
    Position { x: 0, y: 0, z: 0 }
}

#[test]
fn initiative_is_the_face_and_the_modifier() {
    let campaign = ops_campaign();
    let mut roller = ops_character(10, None);
    roller.stats.initiative = 3;
    let encounter = ops_encounter(vec![roller.id], EncounterState::Initiative);
    let characters = vec![roller];
    let operation = record_initiative_roll(
        &campaign,
        &encounter,
        &characters,
        &vec![],
        characters[0].id,
        12,
        ops_at(4),
    )
    .unwrap();
    assert_eq!(
        operation.operation_type,
        OperationType::Roll { roll: RollType::Initiative, result: 15 }
    );
    assert_eq!(operation.initiative_roll(), Some(15));
    assert_eq!(operation.legality, Legality::Legal);
    assert!(operation.interactions.is_empty());
    assert_eq!(operation.campaign_id, campaign.id);
    assert_eq!(operation.encounter_id, Some(encounter.id));
    assert_eq!(operation.encounter_state, Some(EncounterState::Initiative));
    assert_eq!(operation.character_id, characters[0].id);
    assert_eq!(operation.created_at, ops_at(4));
    assert_eq!(operation.modified_at, ops_at(4));
}

#[test]
fn initiative_is_held_within_thirty_two_bits() {
    let campaign = ops_campaign();
    let mut roller = ops_character(10, None);
    roller.stats.initiative = i32::MAX;
    let encounter = ops_encounter(vec![roller.id], EncounterState::Initiative);
    let characters = vec![roller];
    let operation = record_initiative_roll(
        &campaign,
        &encounter,
        &characters,
        &vec![],
        characters[0].id,
        20,
        ops_at(4),
    )
    .unwrap();
    assert_eq!(operation.initiative_roll(), Some(i32::MAX));
}

#[test]
fn rolled_initiative_is_a_throw_of_the_twenty_sided_die_and_the_modifier() {
    let campaign = ops_campaign();
    let mut roller = ops_character(10, None);
    roller.stats.initiative = 100;
    let encounter = ops_encounter(vec![roller.id], EncounterState::Initiative);
    let characters = vec![roller];
    let mut seen_other_than_lowest = false;
    for _ in 0..100 {
        let operation = roll_in_current_encounter_in_campaign(
            &campaign,
            &encounter,
            &characters,
            &vec![],
            characters[0].id,
            RollType::Hit,
            ops_at(4),
        )
        .unwrap();
        let (roll, result) = operation.operation_type.as_roll().unwrap();
        assert_eq!(roll, RollType::Initiative);
        assert!(101 <= result && result <= 120);
        seen_other_than_lowest = seen_other_than_lowest || result != 101;
    }
    assert!(seen_other_than_lowest);
}

#[test]
fn initiative_is_rolled_once_by_a_character_of_the_encounter() {
    let campaign = ops_campaign();
    let roller = ops_character(10, None);
    let outsider = ops_character(11, None);
    let encounter = ops_encounter(vec![roller.id], EncounterState::Initiative);
    let characters = vec![roller, outsider];
    let attempt = |operations: &Vec<Operation>, character_id: CharacterId| {
        record_initiative_roll(
            &campaign,
            &encounter,
            &characters,
            operations,
            character_id,
            5,
            ops_at(4),
        )
    };
    let unknown = CharacterId::from_u128(99);
    assert_eq!(
        attempt(&vec![], unknown),
        Err(Error::CharacterNotInCampaign { campaign_id: campaign.id, character_id: unknown })
    );
    assert_eq!(
        attempt(&vec![], characters[1].id),
        Err(Error::CharacterNotInEncounter {
            campaign_id: campaign.id,
            encounter_id: encounter.id,
            character_id: characters[1].id
        })
    );
    let first = attempt(&vec![], characters[0].id).unwrap();
    let mut elsewhere = first.clone();
    elsewhere.encounter_id = Some(EncounterId::from_u128(101));
    let mut by_another = first.clone();
    by_another.character_id = characters[1].id;
    let mut another_roll = first.clone();
    another_roll.operation_type = OperationType::Roll { roll: RollType::Hit, result: 5 };
    let unrelated = vec![elsewhere, by_another, another_roll];
    assert!(!character_already_rolled(&unrelated, &encounter, characters[0].id));
    assert!(attempt(&unrelated, characters[0].id).is_ok());

    let operations = vec![first];
    assert!(character_already_rolled(&operations, &encounter, characters[0].id));
    assert_eq!(
        attempt(&operations, characters[0].id),
        Err(Error::CharacterAlreadyRolledInitiative {
            campaign_id: campaign.id,
            encounter_id: encounter.id,
            character_id: characters[0].id
        })
    );
}

#[test]
fn operation_types_give_their_roll_or_their_move() {
    let roll = OperationType::Roll { roll: RollType::Damage, result: 4 };
    let mov = OperationType::Move(Move { to_position: here(), feet: 3 });
    let bonus = OperationType::Bonus { name: "Rage".to_string() };
    assert_eq!(roll.as_roll(), Some((RollType::Damage, 4)));
    assert_eq!(roll.as_move(), None);
    assert_eq!(mov.as_move(), Some(&Move { to_position: here(), feet: 3 }));
    assert_eq!(mov.as_roll(), None);
    assert_eq!(bonus.as_roll(), None);
    assert_eq!(bonus.as_move(), None);
    assert_eq!(ops_operation(roll, vec![]).initiative_roll(), None);
}

#[test]
fn result_is_submitted_by_the_character_that_the_interaction_asks() {
    let campaign = ops_campaign();
    let attacker = ops_character(10, Some(here()));
    let mut target = ops_character(11, Some(here()));
    target.stats.armor_class = 12;
    let encounter = ops_encounter(vec![attacker.id, target.id], EncounterState::Initiative);
    let attack = Attack {
        method: AttackMethod::Unarmed(DamageType::Bludgeoning),
        targets: vec![target.id],
    };
    let operation = ops_operation(
        OperationType::Action(Action::Attack(attack)),
        vec![ops_interaction(501, 11, RollType::Damage), ops_interaction(502, 10, RollType::Hit)],
    );
    let characters = vec![attacker, target];
    let attempt = |interaction: u128, character: u128, result: i32| {
        submit_interaction_result_to_operation(
            &campaign,
            &encounter,
            &characters,
            &operation,
            InteractionId::from_u128(interaction),
            CharacterId::from_u128(character),
            result,
        )
    };
    assert_eq!(
        attempt(999, 10, 15),
        Err(Error::InteractionNotFound {
            operation_id: operation.id,
            interaction_id: InteractionId::from_u128(999)
        })
    );
    assert_eq!(
        attempt(502, 11, 15),
        Err(Error::WrongCharacterForInteraction {
            operation_id: operation.id,
            interaction_id: InteractionId::from_u128(502),
            expected_character_id: CharacterId::from_u128(10),
            request_character_id: CharacterId::from_u128(11),
        })
    );
    let hit = attempt(502, 10, 12).unwrap();
    assert_eq!(hit.interaction_index, 1);
    assert_eq!(hit.outcome.interactions.len(), 1);
    assert_eq!(hit.outcome.interactions[0].roll_type, RollType::Damage);
    assert_eq!(hit.outcome.interactions[0].character_id, CharacterId::from_u128(10));
    assert_eq!(hit.outcome.hit_points, None);
    let miss = attempt(502, 10, 11).unwrap();
    assert!(miss.outcome.interactions.is_empty());
    let damage = attempt(501, 11, 3).unwrap();
    assert_eq!(damage.interaction_index, 0);
    assert_eq!(damage.outcome.hit_points.unwrap().hit_points, 7);
    assert_eq!(find_interaction(&operation.interactions, InteractionId::from_u128(502)), Some(1));
    assert_eq!(find_interaction(&operation.interactions, InteractionId::from_u128(1)), None);
}

#[test]
fn result_is_not_submitted_twice() {
    let campaign = ops_campaign();
    let attacker = ops_character(10, Some(here()));
    let target = ops_character(11, Some(here()));
    let encounter = ops_encounter(vec![attacker.id, target.id], EncounterState::Initiative);
    let attack = Attack {
        method: AttackMethod::Unarmed(DamageType::Bludgeoning),
        targets: vec![target.id],
    };
    let characters = vec![attacker, target];
    let stored = ops_operation(
        OperationType::Action(Action::Attack(attack)),
        vec![ops_interaction(501, 10, RollType::Hit)],
    );
    let submit = |operation: &Operation, character: u128, result: i32| {
        submit_interaction_result_to_operation(
            &campaign,
            &encounter,
            &characters,
            operation,
            InteractionId::from_u128(501),
            CharacterId::from_u128(character),
            result,
        )
    };
    let first = submit(&stored, 10, 15).unwrap();
    let written =
        update_operation_interaction_result(stored, first.interaction_index, 15, ops_at(7), 1)
            .unwrap();
    assert_eq!(written.interactions[0].result, Some(15));
    let resolved = Error::InteractionAlreadyResolved {
        operation_id: written.id,
        interaction_id: InteractionId::from_u128(501),
    };
    assert_eq!(submit(&written, 10, 3), Err(resolved.clone()));
    assert_eq!(submit(&written, 10, 15), Err(resolved));
    assert_eq!(
        submit(&written, 11, 3),
        Err(Error::WrongCharacterForInteraction {
            operation_id: written.id,
            interaction_id: InteractionId::from_u128(501),
            expected_character_id: CharacterId::from_u128(10),
            request_character_id: CharacterId::from_u128(11),
        })
    );
    assert_eq!(written.interactions[0].result, Some(15));
}

#[test]
fn attack_on_a_target_that_left_the_campaign_cannot_be_resolved() {
    let campaign = ops_campaign();
    let attacker = ops_character(10, Some(here()));
    let attack = Attack {
        method: AttackMethod::Unarmed(DamageType::Bludgeoning),
        targets: vec![CharacterId::from_u128(11)],
    };
    let characters = vec![attacker];
    let gone = Error::CharacterNotFoundInCampaign {
        campaign_id: campaign.id,
        character_id: CharacterId::from_u128(11),
    };
    for roll_type in [RollType::Hit, RollType::Damage] {
        let interaction = ops_interaction(501, 10, roll_type);
        assert_eq!(
            attack.handle_interaction_result(campaign.id, &characters, &interaction, 15),
            Err(gone.clone())
        );
    }
    let interaction = ops_interaction(501, 10, RollType::Initiative);
    let outcome =
        attack.handle_interaction_result(campaign.id, &characters, &interaction, 15).unwrap();
    assert!(outcome.interactions.is_empty());
    assert_eq!(outcome.hit_points, None);
}

#[test]
fn results_for_operations_that_are_no_attack_or_cast_lead_to_nothing() {
    let campaign = ops_campaign();
    let roller = ops_character(10, Some(here()));
    let encounter = ops_encounter(vec![roller.id], EncounterState::Initiative);
    let characters = vec![roller];
    for operation_type in [
        OperationType::Move(Move { to_position: here(), feet: 3 }),
        OperationType::Action(Action::Dodge),
        OperationType::Bonus { name: "Rage".to_string() },
    ] {
        let operation = ops_operation(operation_type, vec![ops_interaction(501, 10, RollType::Hit)]);
        let resolved = submit_interaction_result_to_operation(
            &campaign,
            &encounter,
            &characters,
            &operation,
            InteractionId::from_u128(501),
            CharacterId::from_u128(10),
            20,
        )
        .unwrap();
        assert_eq!(resolved.interaction_index, 0);
        assert!(resolved.outcome.interactions.is_empty());
        assert_eq!(resolved.outcome.hit_points, None);
    }
}

#[test]
fn damage_leaves_hit_points_between_none_and_the_largest_number() {
    assert_eq!(apply_damage(10, 8), 2);
    assert_eq!(apply_damage(10, 10), 0);
    assert_eq!(apply_damage(10, 20), 0);
    assert_eq!(apply_damage(10, 0), 10);
    assert_eq!(apply_damage(10, -5), 15);
    assert_eq!(apply_damage(-3, 0), 0);
    assert_eq!(apply_damage(i32::MAX, i32::MIN), i32::MAX);
    assert_eq!(apply_damage(i32::MIN, i32::MAX), 0);
}

#[test]
fn a_result_is_written_once_for_each_reading_of_the_operation() {
    let stored = ops_operation(
        OperationType::Action(Action::Dodge),
        vec![ops_interaction(501, 10, RollType::Hit), ops_interaction(502, 10, RollType::Damage)],
    );
    let mut store = vec![stored.version()];
    let reading_a = stored.clone();
    let reading_b = stored.clone();

    let matched = matched_count(&store, reading_a.version());
    let written =
        update_operation_interaction_result(reading_a, 1, 17, ops_at(7), matched).unwrap();
    store[0] = written.version();
    assert_eq!(written.interactions[1].result, Some(17));
    assert_eq!(written.interactions[0].result, None);
    assert_eq!(written.interactions[1].id, InteractionId::from_u128(502));
    assert_eq!(written.modified_at, ops_at(7));
    assert_eq!(written.operation_type, stored.operation_type);

    let matched = matched_count(&store, reading_b.version());
    assert_eq!(matched, 0);
    assert_eq!(
        update_operation_interaction_result(reading_b, 1, 3, ops_at(8), matched),
        Err(Error::ConcurrentModificationDetected)
    );
    assert_eq!(written.interactions[1].result, Some(17));
}

#[test]
fn new_interactions_are_appended_to_an_operation() {
    let stored =
        ops_operation(OperationType::Action(Action::Dodge), vec![ops_interaction(501, 10, RollType::Hit)]);
    let more = vec![ops_interaction(502, 11, RollType::Damage), ops_interaction(503, 12, RollType::Hit)];
    let pushed =
        update_operation_push_interactions(stored.clone(), more.clone(), ops_at(7), 1).unwrap();
    assert_eq!(pushed.interactions, vec![stored.interactions[0], more[0], more[1]]);
    assert_eq!(pushed.modified_at, ops_at(7));
    assert_eq!(pushed.id, stored.id);
    assert_eq!(
        update_operation_push_interactions(stored, more, ops_at(7), 0),
        Err(Error::ConcurrentModificationDetected)
    );
}

fn ops_violation() -> Violation {
    Violation::CharacterMovementExceeded {
        character_id: CharacterId::from_u128(10),
        maximum_movement: 30,
        current_movement: 0,
        request_movement: 35,
    }
}

#[test]
fn pending_operation_is_approved_with_the_same_violations() {
    let mut operation = ops_operation(OperationType::Action(Action::Dodge), vec![]);
    operation.legality = Legality::IllegalPending { violations: vec![ops_violation()] };
    let legality = approve_illegal_operation(&operation).unwrap();
    assert_eq!(legality, Legality::IllegalApproved { violations: vec![ops_violation()] });
    let approved =
        update_operation_legality(operation.clone(), legality.clone(), ops_at(9), 1).unwrap();
    assert_eq!(approved.legality, legality);
    assert_eq!(approved.modified_at, ops_at(9));
    assert_eq!(approved.interactions, operation.interactions);
    assert_eq!(
        update_operation_legality(operation, legality, ops_at(9), 0),
        Err(Error::ConcurrentModificationDetected)
    );
}

#[test]
fn pending_operation_is_rejected_by_deleting_it() {
    let mut operation = ops_operation(OperationType::Action(Action::Dodge), vec![]);
    operation.legality = Legality::IllegalPending { violations: vec![ops_violation()] };
    assert_eq!(reject_illegal_operation(&operation), Ok(operation.id));
}

#[test]
fn only_a_pending_operation_is_approved_or_rejected() {
    for legality in
        [Legality::Legal, Legality::IllegalApproved { violations: vec![ops_violation()] }]
    {
        let mut operation = ops_operation(OperationType::Action(Action::Dodge), vec![]);
        operation.legality = legality.clone();
        let not_pending =
            Error::OperationIsNotPending { operation_id: operation.id, legality: legality.clone() };
        assert_eq!(approve_illegal_operation(&operation), Err(not_pending.clone()));
        assert_eq!(reject_illegal_operation(&operation), Err(not_pending));
    }
}

#[test]
fn legality_follows_from_the_violations() {
    assert_eq!(Legality::of(vec![]), Legality::Legal);
    assert_eq!(
        Legality::of(vec![ops_violation()]),
        Legality::IllegalPending { violations: vec![ops_violation()] }
    );
    let pending = Legality::IllegalPending { violations: vec![ops_violation(), ops_violation()] };
    assert_eq!(pending.duplicate(), pending);
}

fn ops_item(number: u128, item_type: ItemType) -> Item {
    Item { id: ItemId::from_u128(number), name: "Thing".to_string(), weight: 1, value: 1, item_type }
}

fn ops_bow() -> Weapon {
    Weapon {
        damage_amount: Dice::D6,
        damage_type: DamageType::Piercing,
        properties: vec![WeaponProperty::Ammunition(Range { normal: 80, long: 320 })],
    }
}

#[test]
fn attack_method_takes_its_weapon_from_the_item() {
    let weapon_id = ItemId::from_u128(7);
    let unarmed = AttackMethodBody::Unarmed { damage_type: DamageType::Fire };
    let armed = AttackMethodBody::Weapon { weapon_id };
    let improvised = AttackMethodBody::ImprovisedWeapon { weapon_id };
    assert_eq!(unarmed.weapon_id(), None);
    assert_eq!(armed.weapon_id(), Some(weapon_id));
    assert_eq!(improvised.weapon_id(), Some(weapon_id));
    assert_eq!(unarmed.into_attack_method(None), Ok(AttackMethod::Unarmed(DamageType::Fire)));
    assert_eq!(
        armed.into_attack_method(Some(ops_item(7, ItemType::Weapon(ops_bow())))),
        Ok(AttackMethod::Weapon(ops_bow()))
    );
    assert_eq!(
        improvised.into_attack_method(Some(ops_item(7, ItemType::Weapon(ops_bow())))),
        Ok(AttackMethod::ImprovisedWeapon(ops_bow()))
    );
    let armor = ItemType::Armor(Armor {
        base_armor_class: 4,
        armor_type: ArmorType::Medium,
        strength_requirement: None,
        stealth_disadvantage: true,
    });
    for method in [armed, improvised] {
        assert_eq!(method.into_attack_method(None), Err(Error::ItemDoesNotExist { item_id: weapon_id }));
        assert_eq!(
            method.into_attack_method(Some(ops_item(7, armor.clone()))),
            Err(Error::ItemIsNotAWeapon { item_id: weapon_id })
        );
    }
}

fn ops_attack(attacker: u128, target: u128, method: AttackMethodBody) -> ActionBody {
    ActionBody {
        character_id: CharacterId::from_u128(attacker),
        action_type: ActionTypeBody::Attack(AttackBody {
            target_character_id: CharacterId::from_u128(target),
            method,
        }),
        ignore_violations: false,
    }
}

#[test]
fn attack_with_a_bow_from_sixty_feet_is_legal() {
    let campaign = ops_campaign();
    let attacker = ops_character(10, Some(here()));
    let target = ops_character(11, Some(Position { x: 60, y: 0, z: 0 }));
    let encounter = ops_encounter(
        vec![attacker.id, target.id],
        EncounterState::Turn { round: 3, character_id: attacker.id },
    );
    let characters = vec![attacker, target];
    let operation = take_action_in_current_encounter_in_campaign(
        &campaign,
        &encounter,
        &characters,
        Some(ops_item(7, ItemType::Weapon(ops_bow()))),
        ops_attack(10, 11, AttackMethodBody::Weapon { weapon_id: ItemId::from_u128(7) }),
        ops_at(4),
    )
    .unwrap();
    assert_eq!(operation.legality, Legality::Legal);
    assert_eq!(
        operation.operation_type,
        OperationType::Action(Action::Attack(Attack {
            method: AttackMethod::Weapon(ops_bow()),
            targets: vec![characters[1].id],
        }))
    );
    assert_eq!(operation.encounter_state, Some(encounter.state));
    assert_eq!(operation.interactions.len(), 1);
    assert_eq!(operation.interactions[0].roll_type, RollType::Hit);
    assert_eq!(operation.interactions[0].character_id, characters[0].id);
}

#[test]
fn action_needs_the_turn_a_weapon_and_a_target_in_the_encounter() {
    let campaign = ops_campaign();
    let attacker = ops_character(10, Some(here()));
    let target = ops_character(11, Some(here()));
    let waiting = ops_character(12, Some(here()));
    let outsider = ops_character(13, Some(here()));
    let lost = ops_character(14, None);
    let encounter = ops_encounter(
        vec![attacker.id, target.id, waiting.id, lost.id],
        EncounterState::Turn { round: 0, character_id: attacker.id },
    );
    let characters = vec![attacker, target, waiting, outsider, lost];
    let unarmed = AttackMethodBody::Unarmed { damage_type: DamageType::Bludgeoning };
    let attempt = |item: Option<Item>, body: ActionBody| {
        take_action_in_current_encounter_in_campaign(
            &campaign, &encounter, &characters, item, body, ops_at(4),
        )
    };
    assert_eq!(
        attempt(None, ops_attack(99, 11, unarmed)),
        Err(Error::CharacterNotInCampaign {
            campaign_id: campaign.id,
            character_id: CharacterId::from_u128(99)
        })
    );
    assert_eq!(
        attempt(None, ops_attack(13, 11, unarmed)),
        Err(Error::CharacterNotInEncounter {
            campaign_id: campaign.id,
            encounter_id: encounter.id,
            character_id: CharacterId::from_u128(13)
        })
    );
    assert_eq!(
        attempt(None, ops_attack(12, 11, unarmed)),
        Err(Error::NotThisPlayersTurn {
            campaign_id: campaign.id,
            encounter_id: encounter.id,
            request_character_id: CharacterId::from_u128(12),
            current_character_id: CharacterId::from_u128(10),
        })
    );
    let weapon_id = ItemId::from_u128(7);
    assert_eq!(
        attempt(None, ops_attack(10, 99, AttackMethodBody::Weapon { weapon_id })),
        Err(Error::ItemDoesNotExist { item_id: weapon_id })
    );
    assert_eq!(
        attempt(None, ops_attack(10, 99, unarmed)),
        Err(Error::CharacterNotInCampaign {
            campaign_id: campaign.id,
            character_id: CharacterId::from_u128(99)
        })
    );
    assert_eq!(
        attempt(None, ops_attack(10, 13, unarmed)),
        Err(Error::CharacterNotInEncounter {
            campaign_id: campaign.id,
            encounter_id: encounter.id,
            character_id: CharacterId::from_u128(13)
        })
    );
    assert_eq!(
        attempt(None, ops_attack(10, 14, unarmed)),
        Err(Error::CharacterDoesNotHavePosition { character_id: CharacterId::from_u128(14) })
    );
    assert!(attempt(None, ops_attack(10, 11, unarmed)).is_ok());
}
