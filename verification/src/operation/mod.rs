use crate::campaign::CampaignId;
use crate::character::{CharacterId, Position};
use crate::clock::Timestamp;
use crate::encounter::{EncounterId, EncounterState};
use crate::operation::attack::{Attack, AttackView};
use crate::operation::spell::{Cast, CastView};
use crate::typedid::{TypedId, TypedIdMarker};
use crate::violations::Violation;
use vstd::prelude::*;

pub mod attack;
pub mod db;
pub mod endpoints;
pub mod manager;
pub mod names;
pub mod spell;

verus! {

/// Marks the identifiers of operations.
#[derive(Copy, Clone, Debug, PartialEq, Eq)]
pub struct OperationMarker;

pub type OperationId = TypedId<OperationMarker>;

impl TypedIdMarker for OperationMarker {
    open spec fn spec_tag() -> Seq<char> {
        "OPR"@
    }

    fn tag() -> &'static str {
        "OPR"
    }
}

/// The record of one move, action or roll that a player submitted. It keeps
/// the state that the encounter was in when it was submitted.
#[derive(Clone, Debug, PartialEq, Eq)]
pub struct Operation {
    pub id: OperationId,
    pub campaign_id: CampaignId,
    pub encounter_id: Option<EncounterId>,
    pub encounter_state: Option<EncounterState>,
    pub character_id: CharacterId,
    pub created_at: Timestamp,
    pub modified_at: Timestamp,
    pub operation_type: OperationType,
    pub interactions: Vec<Interaction>,
    pub legality: Legality,
}

/// An operation with its collections as sequences.
pub struct OperationView {
    pub id: OperationId,
    pub campaign_id: CampaignId,
    pub encounter_id: Option<EncounterId>,
    pub encounter_state: Option<EncounterState>,
    pub character_id: CharacterId,
    pub created_at: Timestamp,
    pub modified_at: Timestamp,
    pub operation_type: OperationTypeView,
    pub interactions: Seq<Interaction>,
    pub legality: LegalityView,
}

impl View for Operation {
    type V = OperationView;

    open spec fn view(&self) -> OperationView {
        OperationView {
            id: self.id,
            campaign_id: self.campaign_id,
            encounter_id: self.encounter_id,
            encounter_state: self.encounter_state,
            character_id: self.character_id,
            created_at: self.created_at,
            modified_at: self.modified_at,
            operation_type: self.operation_type@,
            interactions: self.interactions@,
            legality: self.legality@,
        }
    }
}

impl Operation {
    /// Whether the operation was recorded in the given encounter.
    pub open spec fn spec_in_encounter(&self, encounter_id: EncounterId) -> bool {
        self.encounter_id == Some(encounter_id)
    }

    /// Whether the operation was recorded in the given encounter.
    pub fn in_encounter(&self, encounter_id: EncounterId) -> (r: bool)
        ensures
            r == self.spec_in_encounter(encounter_id),
    {
        match self.encounter_id {
            Some(id) => id == encounter_id,
            None => false,
        }
    }

    /// Whether the operation was recorded in the given encounter during the
    /// given character's turn of the given round.
    pub open spec fn spec_in_turn(
        &self,
        encounter_id: EncounterId,
        round: i32,
        character_id: CharacterId,
    ) -> bool {
        self.encounter_id == Some(encounter_id) && self.encounter_state == Some(
            EncounterState::Turn { round, character_id },
        )
    }

    /// Whether the operation was recorded in the given encounter during the
    /// given character's turn of the given round.
    pub fn in_turn(&self, encounter_id: EncounterId, round: i32, character_id: CharacterId) -> (r:
        bool)
        ensures
            r == self.spec_in_turn(encounter_id, round, character_id),
    {
        self.in_encounter(encounter_id) && match self.encounter_state {
            Some(EncounterState::Turn { round: r, character_id: c }) => r == round && c
                == character_id,
            _ => false,
        }
    }

    /// The result of the character's initiative roll, if this operation records one.
    pub open spec fn spec_initiative_roll(&self) -> Option<i32> {
        match self.operation_type {
            OperationType::Roll { roll: RollType::Initiative, result } => Some(result),
            _ => None,
        }
    }

    /// The result of the character's initiative roll, if this operation records one.
    pub fn initiative_roll(&self) -> (r: Option<i32>)
        ensures
            r == self.spec_initiative_roll(),
    {
        match self.operation_type.as_roll() {
            Some((RollType::Initiative, result)) => Some(result),
            _ => None,
        }
    }
}

#[derive(Clone, Debug, PartialEq, Eq)]
pub enum OperationType {
    Move(Move),
    Action(Action),
    Bonus { name: String },
    Roll { roll: RollType, result: i32 },
}

/// What an operation did, with its collections as sequences.
pub enum OperationTypeView {
    Move(Move),
    Action(ActionView),
    Bonus { name: Seq<char> },
    Roll { roll: RollType, result: i32 },
}

impl View for OperationType {
    type V = OperationTypeView;

    open spec fn view(&self) -> OperationTypeView {
        match *self {
            OperationType::Move(mov) => OperationTypeView::Move(mov),
            OperationType::Action(action) => OperationTypeView::Action(action@),
            OperationType::Bonus { name } => OperationTypeView::Bonus { name: name@ },
            OperationType::Roll { roll, result } => OperationTypeView::Roll { roll, result },
        }
    }
}

impl OperationType {
    /// The roll and its result, if the operation is a roll.
    pub fn as_roll(&self) -> (r: Option<(RollType, i32)>)
        ensures
            r == match *self {
                OperationType::Roll { roll, result } => Some((roll, result)),
                _ => None,
            },
    {
        match *self {
            OperationType::Roll { roll, result } => Some((roll, result)),
            _ => None,
        }
    }

    /// The move, if the operation is one.
    pub fn as_move(&self) -> (r: Option<&Move>)
        ensures
            r == match *self {
                OperationType::Move(mov) => Some(&mov),
                _ => None,
            },
    {
        match self {
            OperationType::Move(mov) => Some(mov),
            _ => None,
        }
    }
}

#[derive(Copy, Clone, Debug, PartialEq, Eq, Structural)]
pub enum RollType {
    Initiative,
    SkillCheck(SkillType),
    AbilityCheck(AbilityType),
    Save(AbilityType),
    Hit,
    Damage,
}

impl RollType {
    /// The ability that a check or a saving throw tests or the skill that a
    /// check tests, if the roll is one of these.
    pub fn subject(&self) -> (r: Option<AbilityOrSkillType>)
        ensures
            r == match *self {
                RollType::SkillCheck(skill) => Some(AbilityOrSkillType::Skill(skill)),
                RollType::AbilityCheck(ability) => Some(AbilityOrSkillType::Ability(ability)),
                RollType::Save(ability) => Some(AbilityOrSkillType::Ability(ability)),
                _ => None,
            },
    {
        match *self {
            RollType::SkillCheck(skill) => Some(AbilityOrSkillType::Skill(skill)),
            RollType::AbilityCheck(ability) => Some(AbilityOrSkillType::Ability(ability)),
            RollType::Save(ability) => Some(AbilityOrSkillType::Ability(ability)),
            _ => None,
        }
    }
}

#[derive(Copy, Clone, Debug, PartialEq, Eq, Structural)]
pub enum AbilityOrSkillType {
    Ability(AbilityType),
    Skill(SkillType),
}

impl AbilityOrSkillType {
    /// The ability itself, or the ability that governs the skill.
    pub fn ability(&self) -> (ability: AbilityType)
        ensures
            ability == match *self {
                AbilityOrSkillType::Ability(ability) => ability,
                AbilityOrSkillType::Skill(skill) => skill.spec_ability(),
            },
    {
        match *self {
            AbilityOrSkillType::Ability(ability) => ability,
            AbilityOrSkillType::Skill(skill) => skill.ability(),
        }
    }
}

#[derive(Copy, Clone, Debug, PartialEq, Eq, Structural)]
pub enum AbilityType {
    Strength,
    Dexterity,
    Constitution,
    Intelligence,
    Wisdom,
    Charisma,
}

#[derive(Copy, Clone, Debug, PartialEq, Eq, Structural)]
pub enum SkillType {
    Acrobatics,
    AnimalHandling,
    Arcana,
    Athletics,
    Deception,
    History,
    Insight,
    Intimidation,
    Investigation,
    Medicine,
    Nature,
    Perception,
    Performance,
    Persuasion,
    Religion,
    SleightOfHand,
    Stealth,
    Survival,
}

impl SkillType {
    /// The ability that governs the skill.
    pub open spec fn spec_ability(&self) -> AbilityType {
        match *self {
            SkillType::Acrobatics => AbilityType::Dexterity,
            SkillType::AnimalHandling => AbilityType::Wisdom,
            SkillType::Arcana => AbilityType::Intelligence,
            SkillType::Athletics => AbilityType::Strength,
            SkillType::Deception => AbilityType::Charisma,
            SkillType::History => AbilityType::Intelligence,
            SkillType::Insight => AbilityType::Wisdom,
            SkillType::Intimidation => AbilityType::Charisma,
            SkillType::Investigation => AbilityType::Intelligence,
            SkillType::Medicine => AbilityType::Wisdom,
            SkillType::Nature => AbilityType::Intelligence,
            SkillType::Perception => AbilityType::Wisdom,
            SkillType::Performance => AbilityType::Charisma,
            SkillType::Persuasion => AbilityType::Charisma,
            SkillType::Religion => AbilityType::Intelligence,
            SkillType::SleightOfHand => AbilityType::Dexterity,
            SkillType::Stealth => AbilityType::Dexterity,
            SkillType::Survival => AbilityType::Wisdom,
        }
    }

    /// The ability that governs the skill.
    pub fn ability(&self) -> (ability: AbilityType)
        ensures
            ability == self.spec_ability(),
    {
        match self {
            SkillType::Acrobatics => AbilityType::Dexterity,
            SkillType::AnimalHandling => AbilityType::Wisdom,
            SkillType::Arcana => AbilityType::Intelligence,
            SkillType::Athletics => AbilityType::Strength,
            SkillType::Deception => AbilityType::Charisma,
            SkillType::History => AbilityType::Intelligence,
            SkillType::Insight => AbilityType::Wisdom,
            SkillType::Intimidation => AbilityType::Charisma,
            SkillType::Investigation => AbilityType::Intelligence,
            SkillType::Medicine => AbilityType::Wisdom,
            SkillType::Nature => AbilityType::Intelligence,
            SkillType::Perception => AbilityType::Wisdom,
            SkillType::Performance => AbilityType::Charisma,
            SkillType::Persuasion => AbilityType::Charisma,
            SkillType::Religion => AbilityType::Intelligence,
            SkillType::SleightOfHand => AbilityType::Dexterity,
            SkillType::Stealth => AbilityType::Dexterity,
            SkillType::Survival => AbilityType::Wisdom,
        }
    }
}


/// A change of position. `feet` is the distance moved, rounded down.
#[derive(Copy, Clone, Debug, PartialEq, Eq, Structural)]
pub struct Move {
    pub to_position: Position,
    pub feet: u64,
}

#[derive(Clone, Debug, PartialEq, Eq)]
pub enum Action {
    Attack(Attack),
    CastSpell(Cast),
    Dash,
    Disengage,
    Dodge,
    Help,
    Hide,
    Ready,
    Search,
    UseObject,
}

/// An action with its collections as sequences.
pub enum ActionView {
    Attack(AttackView),
    CastSpell(CastView),
    Dash,
    Disengage,
    Dodge,
    Help,
    Hide,
    Ready,
    Search,
    UseObject,
}

impl View for Action {
    type V = ActionView;

    open spec fn view(&self) -> ActionView {
        match *self {
            Action::Attack(attack) => ActionView::Attack(attack@),
            Action::CastSpell(cast) => ActionView::CastSpell(cast@),
            Action::Dash => ActionView::Dash,
            Action::Disengage => ActionView::Disengage,
            Action::Dodge => ActionView::Dodge,
            Action::Help => ActionView::Help,
            Action::Hide => ActionView::Hide,
            Action::Ready => ActionView::Ready,
            Action::Search => ActionView::Search,
            Action::UseObject => ActionView::UseObject,
        }
    }
}

/// Whether `interactions` are requests, in order, for the rolls that `rolls`
/// names by character and roll type: one each, none with a result yet.
pub open spec fn are_requests(
    interactions: Seq<Interaction>,
    rolls: Seq<(CharacterId, RollType)>,
) -> bool {
    &&& interactions.len() == rolls.len()
    &&& forall|i: int|
        0 <= i < interactions.len() ==> {
            &&& (#[trigger] interactions[i]).character_id == rolls[i].0
            &&& interactions[i].roll_type == rolls[i].1
            &&& interactions[i].result is None
        }
}

#[derive(Copy, Clone, Debug, PartialEq, Eq)]
pub enum SpellTarget {
    Creature { character_id: CharacterId },
    Position { position: Position },
    NoTarget,
}

/// Marks the identifiers of interactions.
#[derive(Copy, Clone, Debug, PartialEq, Eq)]
pub struct InteractionMarker;

pub type InteractionId = TypedId<InteractionMarker>;

/// A roll that a character owes to an operation. `result` is absent until the
/// roll has been submitted.
#[derive(Copy, Clone, Debug, PartialEq, Eq)]
pub struct Interaction {
    pub id: InteractionId,
    pub character_id: CharacterId,
    pub roll_type: RollType,
    pub result: Option<i32>,
}

impl TypedIdMarker for InteractionMarker {
    open spec fn spec_tag() -> Seq<char> {
        "ITR"@
    }

    fn tag() -> &'static str {
        "ITR"
    }
}

impl Interaction {
    /// An interaction with a fresh identifier that asks the character for a
    /// roll and has no result yet.
    pub fn request(character_id: CharacterId, roll_type: RollType) -> (interaction: Interaction)
        ensures
            interaction == (Interaction {
                id: interaction.id,
                character_id,
                roll_type,
                result: None,
            }),
    {
        Interaction { id: InteractionId::new(), character_id, roll_type, result: None }
    }
}

/// A character's hit points after damage was dealt to it.
#[derive(Copy, Clone, Debug, PartialEq, Eq)]
pub struct HitPointsChange {
    pub character_id: CharacterId,
    pub hit_points: i32,
}

/// What the result of a roll leads to: further rolls to ask for, and the hit
/// points that a character is left with, where the roll dealt damage.
#[derive(Clone, Debug, PartialEq, Eq)]
pub struct InteractionOutcome {
    pub interactions: Vec<Interaction>,
    pub hit_points: Option<HitPointsChange>,
}

/// An outcome with the interactions it asks for named by character and roll type.
pub struct OutcomeView {
    pub rolls: Seq<(CharacterId, RollType)>,
    pub hit_points: Option<HitPointsChange>,
}

impl InteractionOutcome {
    /// Whether the outcome is the one described: it asks for the rolls named,
    /// in order, and sets the hit points named.
    pub open spec fn is(&self, outcome: OutcomeView) -> bool {
        are_requests(self.interactions@, outcome.rolls) && self.hit_points == outcome.hit_points
    }
}

/// The outcome that changes nothing and asks for nothing.
pub open spec fn no_outcome() -> OutcomeView {
    OutcomeView { rolls: Seq::empty(), hit_points: None }
}

/// The hit points that are left of `current` after `damage`: never less than
/// none, and held at the largest `i32`.
pub open spec fn hit_points_after(current: i32, damage: i32) -> i32 {
    if current - damage < 0 {
        0
    } else if current - damage > i32::MAX {
        i32::MAX
    } else {
        (current - damage) as i32
    }
}

/// The hit points that are left of `current` after `damage`.
pub fn apply_damage(current: i32, damage: i32) -> (left: i32)
    ensures
        left == hit_points_after(current, damage),
{
    let left: i64 = current as i64 - damage as i64;
    if left < 0 {
        0
    } else if left > i32::MAX as i64 {
        i32::MAX
    } else {
        left as i32
    }
}

/// Whether an operation passed the rules, awaits the referee's judgement of
/// its violations, or was approved in spite of them.
#[derive(Clone, Debug, PartialEq, Eq)]
pub enum Legality {
    Legal,
    IllegalPending { violations: Vec<Violation> },
    IllegalApproved { violations: Vec<Violation> },
}

/// A legality with its violations as a sequence.
pub enum LegalityView {
    Legal,
    IllegalPending { violations: Seq<Violation> },
    IllegalApproved { violations: Seq<Violation> },
}

impl View for Legality {
    type V = LegalityView;

    open spec fn view(&self) -> LegalityView {
        match *self {
            Legality::Legal => LegalityView::Legal,
            Legality::IllegalPending { violations } => LegalityView::IllegalPending {
                violations: violations@,
            },
            Legality::IllegalApproved { violations } => LegalityView::IllegalApproved {
                violations: violations@,
            },
        }
    }
}

/// The legality of an operation that was accepted with the given violations:
/// legal without any, and pending otherwise.
pub open spec fn legality_of(violations: Seq<Violation>) -> LegalityView {
    if violations.len() == 0 {
        LegalityView::Legal
    } else {
        LegalityView::IllegalPending { violations }
    }
}

impl Legality {
    /// The legality of an operation that was accepted with the given violations.
    pub fn of(violations: Vec<Violation>) -> (legality: Legality)
        ensures
            legality@ == legality_of(violations@),
    {
        if violations.len() == 0 {
            Legality::Legal
        } else {
            Legality::IllegalPending { violations }
        }
    }
}

} // verus!
