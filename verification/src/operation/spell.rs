use crate::arith::{half_toward_zero, halve};
use crate::campaign::CampaignId;
use crate::character::db::{
    character_in_campaign, fetch_character_by_campaign_and_id, roster_missing,
};
use crate::character::{Character, CharacterId, Position};
use crate::encounter::Encounter;
use crate::error::{Error, ErrorView};
use crate::operation::{
    apply_damage, are_requests, hit_points_after, no_outcome, AbilityType, HitPointsChange,
    Interaction, InteractionOutcome, Operation, OutcomeView, RollType, SpellTarget,
};
use crate::query::{first_match, lemma_first_index_found, lemma_first_index_missing};
use crate::text::str_eq;
use crate::violations::{cast_range_violations, check_cast_range, Violation};
use vstd::prelude::*;

verus! {

/// A spell that was cast, by its name, at its target.
#[derive(Clone, Debug, PartialEq, Eq)]
pub struct Cast {
    pub spell: String,
    pub target: SpellTarget,
}

/// A cast with the spell's name as a sequence of characters.
pub struct CastView {
    pub spell: Seq<char>,
    pub target: SpellTarget,
}

impl View for Cast {
    type V = CastView;

    open spec fn view(&self) -> CastView {
        CastView { spell: self.spell@, target: self.target }
    }
}

/// The saving throw that halves Fireball's damage when its result reaches it.
pub const FIREBALL_DIFFICULTY_CLASS: i32 = 8;

/// Where a cast of the named spell stands: the positions of the caster and of
/// the point it is cast at. The spell must be Fireball, the caster must have a
/// position, and the target must be a position.
pub open spec fn cast_positions(
    source_character: Character,
    name: Seq<char>,
    target: SpellTarget,
) -> Result<(Position, Position), ErrorView> {
    if name != "Fireball"@ {
        Err(ErrorView::SpellDoesNotExist { name })
    } else {
        match source_character.position {
            None => Err(
                ErrorView::CharacterDoesNotHavePosition { character_id: source_character.id },
            ),
            Some(source_position) => match target {
                SpellTarget::Position { position } => Ok((source_position, position)),
                _ => Err(
                    ErrorView::CastUsesWrongTargetType {
                        expected_type: SpellTargetType::Position,
                        provided_type: target,
                    },
                ),
            },
        }
    }
}

/// Whether a character stands within Fireball's blast around `position`.
pub open spec fn in_blast(character: Option<Character>, position: Position) -> bool {
    &&& character matches Some(c)
    &&& c.position matches Some(p)
    &&& p.spec_distance(&position) <= FIREBALL_RADIUS
}

/// The saving throws that Fireball's blast around `position` asks for: a
/// dexterity save of every character of the roster that stands within it, in
/// the roster's order.
pub open spec fn blast_saves(
    roster: Seq<CharacterId>,
    characters: Seq<Character>,
    campaign_id: CampaignId,
    position: Position,
) -> Seq<(CharacterId, RollType)>
    decreases roster.len(),
{
    if roster.len() == 0 {
        Seq::empty()
    } else {
        let rest = blast_saves(roster.drop_last(), characters, campaign_id, position);
        if in_blast(character_in_campaign(characters, campaign_id, roster.last()), position) {
            rest.push((roster.last(), RollType::Save(AbilityType::Dexterity)))
        } else {
            rest
        }
    }
}

/// The first of the interactions that asks for a damage roll.
pub open spec fn damage_roll(interactions: Seq<Interaction>) -> Option<Interaction> {
    first_match(interactions, |i: Interaction| i.roll_type == RollType::Damage)
}

/// The damage that Fireball deals to a character whose saving throw came to
/// `save`, of the `pool` that was rolled: half of it, rounded towards zero,
/// where the save reaches the difficulty class, and all of it otherwise.
pub open spec fn fireball_damage(pool: i32, save: i32) -> i32 {
    if save >= FIREBALL_DIFFICULTY_CLASS {
        half_toward_zero(pool as int) as i32
    } else {
        pool
    }
}

/// What the result of a roll leads to for a cast. Of Fireball, the damage
/// roll asks the characters in the blast for dexterity saves, and needs the
/// target to be a position and every character of the encounter to be one of
/// the campaign; a dexterity save deals the damage to the character that
/// rolled it, and needs that character to be one of the campaign and the
/// operation to hold a damage roll with its result. Any other roll, and any
/// roll for another spell, leads to nothing.
pub open spec fn cast_outcome(
    cast: CastView,
    campaign_id: CampaignId,
    encounter: Encounter,
    characters: Seq<Character>,
    interactions: Seq<Interaction>,
    interaction: Interaction,
    result: i32,
) -> Result<OutcomeView, ErrorView> {
    if cast.spell != "Fireball"@ {
        Ok(no_outcome())
    } else {
        match interaction.roll_type {
            RollType::Damage => match cast.target {
                SpellTarget::Position { position } => match roster_missing(
                    encounter.character_ids@,
                    characters,
                    campaign_id,
                ) {
                    Some(character_id) => Err(
                        ErrorView::CharacterNotFoundInCampaign { campaign_id, character_id },
                    ),
                    None => Ok(
                        OutcomeView {
                            rolls: blast_saves(
                                encounter.character_ids@,
                                characters,
                                campaign_id,
                                position,
                            ),
                            hit_points: None,
                        },
                    ),
                },
                _ => Err(
                    ErrorView::CastUsesWrongTargetType {
                        expected_type: SpellTargetType::Position,
                        provided_type: cast.target,
                    },
                ),
            },
            RollType::Save(AbilityType::Dexterity) => match character_in_campaign(
                characters,
                campaign_id,
                interaction.character_id,
            ) {
                None => Err(
                    ErrorView::CharacterNotFoundInCampaign {
                        campaign_id,
                        character_id: interaction.character_id,
                    },
                ),
                Some(target_character) => match damage_roll(interactions) {
                    None => Err(
                        ErrorView::ExistentialState(
                            "Expected Fireball to have damage roll interaction"@,
                        ),
                    ),
                    Some(damage_interaction) => match damage_interaction.result {
                        None => Err(
                            ErrorView::ExistentialState(
                                "Expected Fireball damage roll to have result"@,
                            ),
                        ),
                        Some(pool) => Ok(
                            OutcomeView {
                                rolls: Seq::empty(),
                                hit_points: Some(
                                    HitPointsChange {
                                        character_id: interaction.character_id,
                                        hit_points: hit_points_after(
                                            target_character.current_hit_points,
                                            fireball_damage(pool, result),
                                        ),
                                    },
                                ),
                            },
                        ),
                    },
                },
            },
            _ => Ok(no_outcome()),
        }
    }
}

/// The place of the first of the interactions that asks for a damage roll.
fn find_damage_roll(interactions: &Vec<Interaction>) -> (found: Option<usize>)
    ensures
        match found {
            Some(i) => i < interactions@.len() && damage_roll(interactions@) == Some(
                interactions@[i as int],
            ),
            None => damage_roll(interactions@) is None,
        },
{
    let ghost p = |i: Interaction| i.roll_type == RollType::Damage;
    let mut i: usize = 0;
    while i < interactions.len()
        invariant
            i <= interactions@.len(),
            forall|j: int| 0 <= j < i ==> !p(interactions@[j]),
            p == (|i: Interaction| i.roll_type == RollType::Damage),
        decreases interactions@.len() - i,
    {
        if interactions[i].roll_type == RollType::Damage {
            proof {
                assert(p(interactions@[i as int]));
                lemma_first_index_found(interactions@, p, i as int);
            }
            return Some(i);
        }
        assert(!p(interactions@[i as int]));
        i += 1;
    }
    proof {
        lemma_first_index_missing(interactions@, p);
    }
    None
}

impl Cast {
    /// Submits the cast of the named spell by `source_character` at `target`.
    /// Gives the cast, a request to the caster for a damage roll, and the
    /// violations of the spell's range.
    pub fn submit(source_character: &Character, name: String, target: SpellTarget) -> (r: Result<
        (Cast, Vec<Interaction>, Vec<Violation>),
        Error,
    >)
        ensures
            match cast_positions(*source_character, name@, target) {
                Err(error) => r matches Err(e) && e@ == error,
                Ok((source_position, cast_position)) => {
                    &&& r matches Ok((cast, interactions, violations))
                    &&& cast@ == (CastView { spell: "Fireball"@, target })
                    &&& are_requests(interactions@, seq![(source_character.id, RollType::Damage)])
                    &&& violations@ == cast_range_violations(
                        source_character.id,
                        FIREBALL_RANGE,
                        source_position,
                        cast_position,
                    )
                },
            },
    {
        let spell = match Spell::fetch_spell_by_name(name.as_str()) {
            Some(spell) => spell,
            None => {
                return Err(Error::SpellDoesNotExist { name });
            },
        };
        let source_position = match &source_character.position {
            Some(position) => position,
            None => {
                return Err(
                    Error::CharacterDoesNotHavePosition { character_id: source_character.id },
                );
            },
        };
        let cast_position = match &target {
            SpellTarget::Position { position } => position,
            _ => {
                return Err(
                    Error::CastUsesWrongTargetType {
                        expected_type: SpellTargetType::Position,
                        provided_type: target,
                    },
                );
            },
        };
        let spell_range = match spell.range {
            SpellRange::Feet(feet) => feet,
            _ => {
                return Err(
                    Error::ExistentialState("Expected Fireball to have range in feet".to_owned()),
                );
            },
        };
        let violations = check_cast_range(
            source_character.id,
            spell_range,
            source_position,
            cast_position,
        );
        let mut interactions: Vec<Interaction> = Vec::new();
        interactions.push(Interaction::request(source_character.id, RollType::Damage));
        let cast = Cast { spell: spell.name, target };
        Ok((cast, interactions, violations))
    }

    /// Resolves the result of a roll that the cast asked for. `operation` is
    /// the operation that recorded the cast.
    pub fn handle_interaction_result(
        &self,
        campaign_id: CampaignId,
        encounter: &Encounter,
        characters: &Vec<Character>,
        operation: &Operation,
        interaction: &Interaction,
        result: i32,
    ) -> (r: Result<InteractionOutcome, Error>)
        ensures
            match cast_outcome(
                self@,
                campaign_id,
                *encounter,
                characters@,
                operation.interactions@,
                *interaction,
                result,
            ) {
                Err(error) => r matches Err(e) && e@ == error,
                Ok(outcome) => r matches Ok(o) && o.is(outcome),
            },
    {
        let mut interactions: Vec<Interaction> = Vec::new();
        let mut hit_points: Option<HitPointsChange> = None;
        if !str_eq(self.spell.as_str(), "Fireball") {
            return Ok(InteractionOutcome { interactions, hit_points });
        }
        match interaction.roll_type {
            RollType::Damage => {
                let position = match &self.target {
                    SpellTarget::Position { position } => position,
                    _ => {
                        return Err(
                            Error::CastUsesWrongTargetType {
                                expected_type: SpellTargetType::Position,
                                provided_type: self.target,
                            },
                        );
                    },
                };
                let ghost roster = encounter.character_ids@;
                let ghost missing = |id: CharacterId|
                    character_in_campaign(characters@, campaign_id, id) is None;
                let mut i: usize = 0;
                assert(roster.take(0) =~= Seq::empty());
                while i < encounter.character_ids.len()
                    invariant
                        i <= roster.len(),
                        roster == encounter.character_ids@,
                        self.spell@ == "Fireball"@,
                        self.target == (SpellTarget::Position { position: *position }),
                        interaction.roll_type == RollType::Damage,
                        missing == (|id: CharacterId|
                            character_in_campaign(characters@, campaign_id, id) is None),
                        forall|j: int| 0 <= j < i ==> !missing(roster[j]),
                        are_requests(
                            interactions@,
                            blast_saves(roster.take(i as int), characters@, campaign_id, *position),
                        ),
                    decreases roster.len() - i,
                {
                    proof {
                        let next = roster.take(i + 1);
                        assert(next.drop_last() =~= roster.take(i as int));
                        assert(next.last() == roster[i as int]);
                    }
                    let character_id = encounter.character_ids[i];
                    let character = match fetch_character_by_campaign_and_id(
                        characters,
                        campaign_id,
                        character_id,
                    ) {
                        Some(k) => &characters[k],
                        None => {
                            proof {
                                assert(missing(roster[i as int]));
                                lemma_first_index_found(roster, missing, i as int);
                            }
                            return Err(
                                Error::CharacterNotFoundInCampaign { campaign_id, character_id },
                            );
                        },
                    };
                    assert(!missing(roster[i as int]));
                    let in_range = match &character.position {
                        Some(character_position) => character_position.distance(position)
                            <= FIREBALL_RADIUS,
                        None => false,
                    };
                    if in_range {
                        interactions.push(
                            Interaction::request(
                                character_id,
                                RollType::Save(AbilityType::Dexterity),
                            ),
                        );
                    }
                    i += 1;
                }
                proof {
                    assert(roster.take(roster.len() as int) =~= roster);
                    lemma_first_index_missing(roster, missing);
                }
            },
            RollType::Save(AbilityType::Dexterity) => {
                let target_character = match fetch_character_by_campaign_and_id(
                    characters,
                    campaign_id,
                    interaction.character_id,
                ) {
                    Some(k) => &characters[k],
                    None => {
                        return Err(
                            Error::CharacterNotFoundInCampaign {
                                campaign_id,
                                character_id: interaction.character_id,
                            },
                        );
                    },
                };
                let damage_interaction = match find_damage_roll(&operation.interactions) {
                    Some(k) => &operation.interactions[k],
                    None => {
                        return Err(
                            Error::ExistentialState(
                                "Expected Fireball to have damage roll interaction".to_owned(),
                            ),
                        );
                    },
                };
                let max_damage = match damage_interaction.result {
                    Some(max_damage) => max_damage,
                    None => {
                        return Err(
                            Error::ExistentialState(
                                "Expected Fireball damage roll to have result".to_owned(),
                            ),
                        );
                    },
                };
                let damage = if result >= FIREBALL_DIFFICULTY_CLASS {
                    halve(max_damage)
                } else {
                    max_damage
                };
                hit_points = Some(
                    HitPointsChange {
                        character_id: interaction.character_id,
                        hit_points: apply_damage(target_character.current_hit_points, damage),
                    },
                );
            },
            _ => {},
        }
        Ok(InteractionOutcome { interactions, hit_points })
    }
}

#[derive(Clone, Debug, PartialEq, Eq)]
pub struct Spell {
    pub name: String,
    pub level: i32,
    pub school: MagicSchool,
    pub casting_time: CastingTime,
    pub range: SpellRange,
    pub target: SpellTargetType,
    pub components: Vec<SpellComponent>,
    pub duration: SpellDuration,
    pub concentration: bool,
    pub description: String,
}

/// The range of Fireball in feet.
pub const FIREBALL_RANGE: i64 = 150;

/// The radius of Fireball's blast in feet.
pub const FIREBALL_RADIUS: u64 = 20;

/// The level of Fireball.
pub const FIREBALL_LEVEL: i32 = 3;

impl Spell {
    /// The spell of the given name in the catalog, which holds Fireball alone.
    pub fn fetch_spell_by_name(name: &str) -> (r: Option<Spell>)
        ensures
            r is Some <==> name@ == "Fireball"@,
            r matches Some(spell) ==> {
                &&& spell.name@ == "Fireball"@
                &&& spell.level == FIREBALL_LEVEL
                &&& spell.school == MagicSchool::Evocation
                &&& spell.casting_time == CastingTime::Action(1)
                &&& spell.range == SpellRange::Feet(FIREBALL_RANGE)
                &&& spell.target == SpellTargetType::Position
                &&& spell.components@ == seq![
                    SpellComponent::Verbal,
                    SpellComponent::Somatic,
                    SpellComponent::Material(None),
                ]
                &&& spell.duration == SpellDuration::Instantaneous
                &&& !spell.concentration
                &&& spell.description@ == "blows shit up"@
            },
    {
        if str_eq(name, "Fireball") {
            let mut components: Vec<SpellComponent> = Vec::new();
            components.push(SpellComponent::Verbal);
            components.push(SpellComponent::Somatic);
            components.push(SpellComponent::Material(None));
            assert(components@ =~= seq![
                SpellComponent::Verbal,
                SpellComponent::Somatic,
                SpellComponent::Material(None),
            ]);
            Some(
                Spell {
                    name: "Fireball".to_owned(),
                    level: FIREBALL_LEVEL,
                    school: MagicSchool::Evocation,
                    casting_time: CastingTime::Action(1),
                    range: SpellRange::Feet(FIREBALL_RANGE),
                    target: SpellTargetType::Position,
                    components,
                    duration: SpellDuration::Instantaneous,
                    concentration: false,
                    description: "blows shit up".to_owned(),
                },
            )
        } else {
            None
        }
    }
}

#[derive(Copy, Clone, Debug, PartialEq, Eq, Structural)]
pub enum SpellTargetType {
    Creature,
    Position,
    NoTarget,
}

#[derive(Clone, Debug, PartialEq, Eq)]
pub enum CastingTime {
    Action(i32),
    BonusAction(i32),
    Reaction(String),
    Minute(i32),
    Hour(i32),
}

#[derive(Copy, Clone, Debug, PartialEq, Eq, Structural)]
pub enum SpellComponent {
    Verbal,
    Somatic,
    Material(Option<i32>),
}

/// How far a spell reaches; a distance is in feet.
#[derive(Copy, Clone, Debug, PartialEq, Eq, Structural)]
pub enum SpellRange {
    Feet(i64),
    Touch,
    Personal,
}

#[derive(Copy, Clone, Debug, PartialEq, Eq, Structural)]
pub enum SpellDuration {
    Instantaneous,
    Round(i32),
    Minute(i32),
    Hour(i32),
    Day(i32),
}

#[derive(Copy, Clone, Debug, PartialEq, Eq, Structural)]
pub enum MagicSchool {
    Abjuration,
    Conjuration,
    Divination,
    Enchantment,
    Evocation,
    Illusion,
    Necromacy,
    Transmutation,
}

} // verus!
