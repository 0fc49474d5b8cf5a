use crate::campaign::CampaignId;
use crate::character::db::{character_in_campaign, fetch_character_by_campaign_and_id};
use crate::character::{Character, CharacterId, Position};
use crate::encounter::Encounter;
use crate::error::{Error, ErrorView};
use crate::item::{DamageType, Weapon, MELEE_RANGE};
use crate::operation::{
    apply_damage, are_requests, hit_points_after, no_outcome, HitPointsChange, Interaction,
    InteractionOutcome, OutcomeView, RollType,
};
use crate::violations::{attack_range_violations, check_attack_range, Violation};
use vstd::prelude::*;

verus! {

/// An attack by its method on its targets.
#[derive(Clone, Debug, PartialEq, Eq)]
pub struct Attack {
    pub method: AttackMethod,
    pub targets: Vec<CharacterId>,
}

/// An attack with its targets as a sequence.
pub struct AttackView {
    pub method: AttackMethod,
    pub targets: Seq<CharacterId>,
}

impl View for Attack {
    type V = AttackView;

    open spec fn view(&self) -> AttackView {
        AttackView { method: self.method, targets: self.targets@ }
    }
}

/// Where an attack stands: the positions of the attacker and of its target.
/// The target must be a character of the campaign and take part in the
/// encounter, and both characters must have a position.
pub open spec fn attack_positions(
    campaign_id: CampaignId,
    encounter: Encounter,
    characters: Seq<Character>,
    source_character: Character,
    target_character_id: CharacterId,
) -> Result<(Position, Position), ErrorView> {
    match character_in_campaign(characters, campaign_id, target_character_id) {
        None => Err(
            ErrorView::CharacterNotInCampaign { campaign_id, character_id: target_character_id },
        ),
        Some(target_character) => if !encounter.spec_has_character(target_character_id) {
            Err(
                ErrorView::CharacterNotInEncounter {
                    campaign_id,
                    encounter_id: encounter.id,
                    character_id: target_character_id,
                },
            )
        } else {
            match source_character.position {
                None => Err(
                    ErrorView::CharacterDoesNotHavePosition { character_id: source_character.id },
                ),
                Some(source_position) => match target_character.position {
                    None => Err(
                        ErrorView::CharacterDoesNotHavePosition {
                            character_id: target_character_id,
                        },
                    ),
                    Some(target_position) => Ok((source_position, target_position)),
                },
            }
        },
    }
}

/// What the result of a roll leads to for an attack on `target_character_id`.
/// A hit roll that reaches the target's armor class asks the roller for a
/// damage roll; a damage roll takes its result off the target's hit points;
/// any other roll leads to nothing. The target must be a character of the
/// campaign for a hit roll or a damage roll.
pub open spec fn attack_outcome(
    campaign_id: CampaignId,
    characters: Seq<Character>,
    target_character_id: CharacterId,
    interaction: Interaction,
    result: i32,
) -> Result<OutcomeView, ErrorView> {
    match interaction.roll_type {
        RollType::Hit => match character_in_campaign(characters, campaign_id, target_character_id) {
            None => Err(
                ErrorView::CharacterNotFoundInCampaign {
                    campaign_id,
                    character_id: target_character_id,
                },
            ),
            Some(target_character) => if target_character.stats.armor_class <= result {
                Ok(
                    OutcomeView {
                        rolls: seq![(interaction.character_id, RollType::Damage)],
                        hit_points: None,
                    },
                )
            } else {
                Ok(no_outcome())
            },
        },
        RollType::Damage => match character_in_campaign(
            characters,
            campaign_id,
            target_character_id,
        ) {
            None => Err(
                ErrorView::CharacterNotFoundInCampaign {
                    campaign_id,
                    character_id: target_character_id,
                },
            ),
            Some(target_character) => Ok(
                OutcomeView {
                    rolls: Seq::empty(),
                    hit_points: Some(
                        HitPointsChange {
                            character_id: target_character_id,
                            hit_points: hit_points_after(
                                target_character.current_hit_points,
                                result,
                            ),
                        },
                    ),
                },
            ),
        },
        _ => Ok(no_outcome()),
    }
}

impl Attack {
    /// Submits an attack by `source_character` on the character that
    /// `target_character_id` names among `characters`. Gives the attack, a
    /// request to the attacker for a hit roll, and the violations of the
    /// attack's range.
    pub fn submit(
        campaign_id: CampaignId,
        encounter: &Encounter,
        characters: &Vec<Character>,
        source_character: &Character,
        target_character_id: CharacterId,
        method: AttackMethod,
    ) -> (r: Result<(Attack, Vec<Interaction>, Vec<Violation>), Error>)
        ensures
            match attack_positions(
                campaign_id,
                *encounter,
                characters@,
                *source_character,
                target_character_id,
            ) {
                Err(error) => r matches Err(e) && e@ == error,
                Ok((source_position, target_position)) => {
                    &&& r matches Ok((attack, interactions, violations))
                    &&& attack@ == (AttackView { method, targets: seq![target_character_id] })
                    &&& are_requests(interactions@, seq![(source_character.id, RollType::Hit)])
                    &&& violations@ == attack_range_violations(
                        source_character.id,
                        target_character_id,
                        method.spec_normal_range() as i64,
                        source_position,
                        target_position,
                    )
                },
            },
    {
        let target_character = match fetch_character_by_campaign_and_id(
            characters,
            campaign_id,
            target_character_id,
        ) {
            Some(i) => &characters[i],
            None => {
                return Err(
                    Error::CharacterNotInCampaign { campaign_id, character_id: target_character_id },
                );
            },
        };
        if !encounter.has_character(target_character_id) {
            return Err(
                Error::CharacterNotInEncounter {
                    campaign_id,
                    encounter_id: encounter.id,
                    character_id: target_character_id,
                },
            );
        }
        let source_position = match &source_character.position {
            Some(position) => position,
            None => {
                return Err(
                    Error::CharacterDoesNotHavePosition { character_id: source_character.id },
                );
            },
        };
        let target_position = match &target_character.position {
            Some(position) => position,
            None => {
                return Err(
                    Error::CharacterDoesNotHavePosition { character_id: target_character_id },
                );
            },
        };
        let attack_range = method.normal_range();
        let violations = check_attack_range(
            source_character.id,
            target_character_id,
            attack_range,
            source_position,
            target_position,
        );
        let mut interactions: Vec<Interaction> = Vec::new();
        interactions.push(Interaction::request(source_character.id, RollType::Hit));
        let mut targets: Vec<CharacterId> = Vec::new();
        targets.push(target_character_id);
        assert(targets@ =~= seq![target_character_id]);
        let attack = Attack { method, targets };
        Ok((attack, interactions, violations))
    }

    /// Resolves the result of a roll that the attack asked for. The attack
    /// must have a target.
    pub fn handle_interaction_result(
        &self,
        campaign_id: CampaignId,
        characters: &Vec<Character>,
        interaction: &Interaction,
        result: i32,
    ) -> (r: Result<InteractionOutcome, Error>)
        requires
            self.targets@.len() > 0,
        ensures
            match attack_outcome(campaign_id, characters@, self.targets@[0], *interaction, result) {
                Err(error) => r matches Err(e) && e@ == error,
                Ok(outcome) => r matches Ok(o) && o.is(outcome),
            },
    {
        let mut interactions: Vec<Interaction> = Vec::new();
        let mut hit_points: Option<HitPointsChange> = None;
        match interaction.roll_type {
            RollType::Hit => {
                let target_character_id = self.targets[0];
                let target_character = match fetch_character_by_campaign_and_id(
                    characters,
                    campaign_id,
                    target_character_id,
                ) {
                    Some(i) => &characters[i],
                    None => {
                        return Err(
                            Error::CharacterNotFoundInCampaign {
                                campaign_id,
                                character_id: target_character_id,
                            },
                        );
                    },
                };
                if target_character.stats.armor_class <= result {
                    interactions.push(
                        Interaction::request(interaction.character_id, RollType::Damage),
                    );
                }
            },
            RollType::Damage => {
                let target_character_id = self.targets[0];
                let target_character = match fetch_character_by_campaign_and_id(
                    characters,
                    campaign_id,
                    target_character_id,
                ) {
                    Some(i) => &characters[i],
                    None => {
                        return Err(
                            Error::CharacterNotFoundInCampaign {
                                campaign_id,
                                character_id: target_character_id,
                            },
                        );
                    },
                };
                hit_points = Some(
                    HitPointsChange {
                        character_id: target_character_id,
                        hit_points: apply_damage(target_character.current_hit_points, result),
                    },
                );
            },
            _ => {},
        }
        Ok(InteractionOutcome { interactions, hit_points })
    }
}

#[derive(Clone, Debug, PartialEq, Eq)]
pub enum AttackMethod {
    Unarmed(DamageType),
    Weapon(Weapon),
    ImprovisedWeapon(Weapon),
}

impl AttackMethod {
    /// The range of the attack in feet: that of the weapon, or the melee range
    /// of an unarmed attack.
    pub open spec fn spec_normal_range(&self) -> int {
        match *self {
            AttackMethod::Unarmed(_) => MELEE_RANGE as int,
            AttackMethod::Weapon(weapon) => weapon.spec_normal_range(),
            AttackMethod::ImprovisedWeapon(weapon) => weapon.spec_normal_range(),
        }
    }

    /// The range of the attack in feet.
    pub fn normal_range(&self) -> (range: i64)
        ensures
            range == self.spec_normal_range(),
    {
        match self {
            AttackMethod::Unarmed(_) => MELEE_RANGE,
            AttackMethod::Weapon(weapon) => weapon.normal_range(),
            AttackMethod::ImprovisedWeapon(weapon) => weapon.normal_range(),
        }
    }
}

} // verus!
