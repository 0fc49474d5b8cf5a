use kmdnd::campaign::{Campaign, CampaignId};
use kmdnd::character::manager::create_character;
use kmdnd::character::{Character, CharacterId, Position};
use kmdnd::clock::Timestamp;
use kmdnd::encounter::{Encounter, EncounterId, EncounterState};
use kmdnd::error::Error;
use kmdnd::operation::endpoints::{ActionBody, ActionTypeBody, CastBody};
use kmdnd::operation::manager::{
    submit_interaction_result_to_operation, take_action_in_current_encounter_in_campaign,
};
use kmdnd::operation::spell::{
    Cast, CastingTime, MagicSchool, Spell, SpellComponent, SpellDuration, SpellRange,
    SpellTargetType,
};
use kmdnd::operation::{
    AbilityType, Action, Interaction, InteractionId, Legality, Operation, OperationId,
    OperationType, RollType, SpellTarget,
};
use kmdnd::violations::Violation;

fn spell_at(millis: i64) -> Timestamp {
    Timestamp { millis }
}

fn spell_campaign() -> Campaign {
    Campaign {
        id: CampaignId::from_u128(1),
        name: "Table".to_string(),
        created_at: spell_at(1),
        modified_at: spell_at(1),
    }
}

fn spell_character(number: u128, position: Option<Position>) -> Character {
    let mut character = create_character(&spell_campaign(), "Someone".to_string(), spell_at(2));
    character.id = CharacterId::from_u128(number);
    character.position = position;
    character
}

fn spell_encounter(roster: Vec<CharacterId>) -> Encounter {
    Encounter {
        id: EncounterId::from_u128(100),
        campaign_id: CampaignId::from_u128(1),
        created_at: spell_at(3),
        modified_at: spell_at(3),
        character_ids: roster,
        state: EncounterState::Initiative,
    }
}

fn point(x: i32, y: i32, z: i32) -> Position {
    Position { x, y, z }
}

fn fireball_at(position: Position) -> Cast {
    Cast { spell: "Fireball".to_string(), target: SpellTarget::Position { position } }
}

fn spell_operation(cast: Cast, interactions: Vec<Interaction>) -> Operation {
    Operation {
        id: OperationId::from_u128(900),
        campaign_id: CampaignId::from_u128(1),
        encounter_id: Some(EncounterId::from_u128(100)),
        encounter_state: Some(EncounterState::Initiative),
        character_id: CharacterId::from_u128(10),
        created_at: spell_at(3),
        modified_at: spell_at(3),
        operation_type: OperationType::Action(Action::CastSpell(cast)),
        interactions,
        legality: Legality::Legal,
    }
}

fn spell_interaction(number: u128, roller: u128, roll_type: RollType, result: Option<i32>) -> Interaction {
    Interaction {
        id: InteractionId::from_u128(number),
        character_id: CharacterId::from_u128(roller),
        roll_type,
        result,
    }
}

#[test]
fn the_catalog_holds_fireball_alone() {
    let spell = Spell::fetch_spell_by_name("Fireball").unwrap();
    assert_eq!(
        spell,
        Spell {
            name: "Fireball".to_string(),
            level: 3,
            school: MagicSchool::Evocation,
            casting_time: CastingTime::Action(1),
            range: SpellRange::Feet(150),
            target: SpellTargetType::Position,
            components: vec![
                SpellComponent::Verbal,
                SpellComponent::Somatic,
                SpellComponent::Material(None)
            ],
            duration: SpellDuration::Instantaneous,
            concentration: false,
            description: "blows shit up".to_string(),
        }
    );
    assert_eq!(Spell::fetch_spell_by_name("fireball"), None);
    assert_eq!(Spell::fetch_spell_by_name("Wish"), None);
    assert_eq!(Spell::fetch_spell_by_name(""), None);
}

#[test]
fn fireball_is_cast_at_a_position_and_asks_the_caster_for_damage() {
    let caster = spell_character(10, Some(point(0, 0, 0)));
    let target = SpellTarget::Position { position: point(150, 0, 0) };
    let (cast, interactions, violations) =
        Cast::submit(&caster, "Fireball".to_string(), target).unwrap();
    assert_eq!(cast, Cast { spell: "Fireball".to_string(), target });
    assert_eq!(violations, vec![]);
    assert_eq!(interactions.len(), 1);
    assert_eq!(interactions[0].character_id, caster.id);
    assert_eq!(interactions[0].roll_type, RollType::Damage);
    assert_eq!(interactions[0].result, None);
}

#[test]
fn fireball_beyond_its_range_violates_the_rules() {
    let caster = spell_character(10, Some(point(0, 0, 0)));
    let far = point(0, 151, 0);
    let (_, interactions, violations) =
        Cast::submit(&caster, "Fireball".to_string(), SpellTarget::Position { position: far })
            .unwrap();
    assert_eq!(
        violations,
        vec![Violation::CastNotInRange {
            request_character_id: caster.id,
            target_position: far,
            spell_range: 150,
            current_range: 151,
        }]
    );
    assert_eq!(interactions.len(), 1);
}

#[test]
fn cast_needs_a_known_spell_a_position_and_the_right_target() {
    let caster = spell_character(10, Some(point(0, 0, 0)));
    let lost = spell_character(11, None);
    let position = SpellTarget::Position { position: point(1, 1, 1) };
    assert_eq!(
        Cast::submit(&caster, "Wish".to_string(), position),
        Err(Error::SpellDoesNotExist { name: "Wish".to_string() })
    );
    assert_eq!(
        Cast::submit(&lost, "Wish".to_string(), position),
        Err(Error::SpellDoesNotExist { name: "Wish".to_string() })
    );
    assert_eq!(
        Cast::submit(&lost, "Fireball".to_string(), SpellTarget::NoTarget),
        Err(Error::CharacterDoesNotHavePosition { character_id: lost.id })
    );
    for target in [SpellTarget::NoTarget, SpellTarget::Creature { character_id: lost.id }] {
        assert_eq!(
            Cast::submit(&caster, "Fireball".to_string(), target),
            Err(Error::CastUsesWrongTargetType {
                expected_type: SpellTargetType::Position,
                provided_type: target
            })
        );
    }
}

#[test]
fn cast_is_recorded_as_an_operation() {
    let campaign = spell_campaign();
    let caster = spell_character(10, Some(point(0, 0, 0)));
    let encounter = spell_encounter(vec![caster.id]);
    let characters = vec![caster];
    let far = point(200, 0, 0);
    let body = |ignore_violations: bool| ActionBody {
        character_id: characters[0].id,
        action_type: ActionTypeBody::CastSpell(CastBody {
            name: "Fireball".to_string(),
            target: SpellTarget::Position { position: far },
        }),
        ignore_violations,
    };
    let violation = Violation::CastNotInRange {
        request_character_id: characters[0].id,
        target_position: far,
        spell_range: 150,
        current_range: 200,
    };
    assert_eq!(
        take_action_in_current_encounter_in_campaign(
            &campaign, &encounter, &characters, None, body(false), spell_at(4)
        ),
        Err(Error::OperationViolatesRules { violations: vec![violation] })
    );
    let operation = take_action_in_current_encounter_in_campaign(
        &campaign, &encounter, &characters, None, body(true), spell_at(4),
    )
    .unwrap();
    assert_eq!(operation.legality, Legality::IllegalPending { violations: vec![violation] });
    assert_eq!(operation.operation_type, OperationType::Action(Action::CastSpell(fireball_at(far))));
    assert_eq!(operation.interactions.len(), 1);
    assert_eq!(operation.interactions[0].roll_type, RollType::Damage);
}

#[test]
fn damage_roll_of_fireball_asks_everyone_in_the_blast_for_a_dexterity_save() {
    let campaign = spell_campaign();
    let caster = spell_character(10, Some(point(0, 0, 0)));
    let near = spell_character(11, Some(point(20, 0, 0)));
    let far = spell_character(12, Some(point(21, 0, 0)));
    let nowhere = spell_character(13, None);
    let diagonal = spell_character(14, Some(point(12, 12, 12)));
    let bystander = spell_character(15, Some(point(1, 1, 1)));
    let roster = vec![diagonal.id, caster.id, far.id, nowhere.id, near.id];
    let encounter = spell_encounter(roster);
    let characters = vec![caster, near, far, nowhere, diagonal, bystander];
    let cast = fireball_at(point(0, 0, 0));
    let operation =
        spell_operation(cast.clone(), vec![spell_interaction(501, 10, RollType::Damage, None)]);
    let outcome = cast
        .handle_interaction_result(
            campaign.id,
            &encounter,
            &characters,
            &operation,
            &operation.interactions[0],
            24,
        )
        .unwrap();
    assert_eq!(outcome.hit_points, None);
    let asked: Vec<(CharacterId, RollType, Option<i32>)> =
        outcome.interactions.iter().map(|i| (i.character_id, i.roll_type, i.result)).collect();
    let save = RollType::Save(AbilityType::Dexterity);
    assert_eq!(
        asked,
        vec![
            (CharacterId::from_u128(14), save, None),
            (CharacterId::from_u128(10), save, None),
            (CharacterId::from_u128(11), save, None),
        ]
    );
    let ids: Vec<InteractionId> = outcome.interactions.iter().map(|i| i.id).collect();
    assert_ne!(ids[0], ids[1]);
    assert_ne!(ids[1], ids[2]);
}

#[test]
fn damage_roll_of_fireball_needs_every_character_of_the_encounter() {
    let campaign = spell_campaign();
    let caster = spell_character(10, Some(point(0, 0, 0)));
    let encounter = spell_encounter(vec![
        caster.id,
        CharacterId::from_u128(98),
        CharacterId::from_u128(99),
    ]);
    let characters = vec![caster];
    let cast = fireball_at(point(500, 0, 0));
    let operation =
        spell_operation(cast.clone(), vec![spell_interaction(501, 10, RollType::Damage, None)]);
    assert_eq!(
        cast.handle_interaction_result(
            campaign.id,
            &encounter,
            &characters,
            &operation,
            &operation.interactions[0],
            24,
        ),
        Err(Error::CharacterNotFoundInCampaign {
            campaign_id: campaign.id,
            character_id: CharacterId::from_u128(98)
        })
    );
}

#[test]
fn dexterity_save_halves_the_damage_of_fireball_from_eight_up() {
    let campaign = spell_campaign();
    let mut victim = spell_character(11, Some(point(0, 0, 0)));
    victim.current_hit_points = 30;
    let encounter = spell_encounter(vec![victim.id]);
    let characters = vec![victim];
    let cast = fireball_at(point(0, 0, 0));
    let save = RollType::Save(AbilityType::Dexterity);
    let operation = spell_operation(
        cast,
        vec![
            spell_interaction(501, 10, RollType::Hit, Some(99)),
            spell_interaction(502, 10, RollType::Damage, Some(25)),
            spell_interaction(503, 11, save, None),
            spell_interaction(504, 10, RollType::Damage, Some(1)),
        ],
    );
    let left_after = |result: i32| {
        let resolved = submit_interaction_result_to_operation(
            &campaign,
            &encounter,
            &characters,
            &operation,
            InteractionId::from_u128(503),
            CharacterId::from_u128(11),
            result,
        )
        .unwrap();
        assert_eq!(resolved.interaction_index, 2);
        assert!(resolved.outcome.interactions.is_empty());
        let change = resolved.outcome.hit_points.unwrap();
        assert_eq!(change.character_id, CharacterId::from_u128(11));
        change.hit_points
    };
    assert_eq!(left_after(7), 5);
    assert_eq!(left_after(8), 18);
    assert_eq!(left_after(20), 18);
    assert_eq!(left_after(-4), 5);
}

#[test]
fn dexterity_save_needs_the_damage_roll_and_its_result() {
    let campaign = spell_campaign();
    let victim = spell_character(11, Some(point(0, 0, 0)));
    let encounter = spell_encounter(vec![victim.id]);
    let characters = vec![victim];
    let cast = fireball_at(point(0, 0, 0));
    let save = spell_interaction(503, 11, RollType::Save(AbilityType::Dexterity), None);
    let resolve = |characters: &Vec<Character>, interactions: Vec<Interaction>| {
        let operation = spell_operation(cast.clone(), interactions);
        cast.handle_interaction_result(campaign.id, &encounter, characters, &operation, &save, 10)
    };
    assert_eq!(
        resolve(&characters, vec![save]),
        Err(Error::ExistentialState(
            "Expected Fireball to have damage roll interaction".to_string()
        ))
    );
    assert_eq!(
        resolve(&characters, vec![
            spell_interaction(501, 10, RollType::Damage, None),
            spell_interaction(502, 10, RollType::Damage, Some(4)),
            save
        ]),
        Err(Error::ExistentialState("Expected Fireball damage roll to have result".to_string()))
    );
    assert_eq!(
        resolve(&vec![], vec![spell_interaction(502, 10, RollType::Damage, Some(4)), save]),
        Err(Error::CharacterNotFoundInCampaign {
            campaign_id: campaign.id,
            character_id: CharacterId::from_u128(11)
        })
    );
}

#[test]
fn other_rolls_and_other_spells_lead_to_nothing() {
    let campaign = spell_campaign();
    let caster = spell_character(10, Some(point(0, 0, 0)));
    let encounter = spell_encounter(vec![caster.id, CharacterId::from_u128(99)]);
    let characters = vec![caster];
    for (cast, roll_type) in [
        (fireball_at(point(0, 0, 0)), RollType::Hit),
        (fireball_at(point(0, 0, 0)), RollType::Save(AbilityType::Wisdom)),
        (Cast { spell: "Wish".to_string(), target: SpellTarget::NoTarget }, RollType::Damage),
    ] {
        let interaction = spell_interaction(501, 10, roll_type, None);
        let operation = spell_operation(cast.clone(), vec![interaction]);
        let outcome = cast
            .handle_interaction_result(
                campaign.id, &encounter, &characters, &operation, &interaction, 20,
            )
            .unwrap();
        assert!(outcome.interactions.is_empty());
        assert_eq!(outcome.hit_points, None);
    }
    let aimless = Cast { spell: "Fireball".to_string(), target: SpellTarget::NoTarget };
    let interaction = spell_interaction(501, 10, RollType::Damage, None);
    let operation = spell_operation(aimless.clone(), vec![interaction]);
    assert_eq!(
        aimless.handle_interaction_result(
            campaign.id, &encounter, &characters, &operation, &interaction, 20,
        ),
        Err(Error::CastUsesWrongTargetType {
            expected_type: SpellTargetType::Position,
            provided_type: SpellTarget::NoTarget
        })
    );
}
