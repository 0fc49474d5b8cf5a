use crate::campaign::Campaign;
use crate::character::race::Race;
use crate::character::{
    default_stats, item_by_id, Character, CharacterId, CharacterOwner, CharacterStats,
    EquipmentEntry, Proficiencies, RollModifier,
};
use crate::clock::Timestamp;
use crate::item::{fetch_item_by_id, ArmorType, Item, ItemType};
use crate::operation::{AbilityType, RollType, SkillType};
use crate::query::{lemma_first_index_found, lemma_first_index_missing};
use vstd::prelude::*;

verus! {

/// The hit points that a new character has.
pub const STARTING_HIT_POINTS: i32 = 10;

/// Creates a character of a campaign with the given name. The character is a
/// human without equipment, position or proficiencies, with the default
/// statistics and a fresh identifier, created and last modified at `now`.
pub fn create_character(campaign: &Campaign, name: String, now: Timestamp) -> (character: Character)
    ensures
        character.owner == CharacterOwner::Campaign(campaign.id),
        character.name == name,
        character.created_at == now,
        character.modified_at == now,
        character.stats == default_stats(),
        character.equipment@.len() == 0,
        character.position is None,
        character.current_hit_points == STARTING_HIT_POINTS,
        character.maximum_hit_points == STARTING_HIT_POINTS,
        character.race == Race::Human,
        character.racial_traits@.len() == 0,
        character.proficiencies.armor@.len() == 0,
        character.proficiencies.tool@.len() == 0,
        character.proficiencies.saving_throws@.len() == 0,
        character.proficiencies.skills@.len() == 0,
{
    let mut character = Character {
        id: CharacterId::new(),
        owner: CharacterOwner::Campaign(campaign.id),
        name,
        created_at: now,
        modified_at: now,
        stats: CharacterStats::default(),
        equipment: Vec::new(),
        position: None,
        current_hit_points: STARTING_HIT_POINTS,
        maximum_hit_points: STARTING_HIT_POINTS,
        race: Race::Human,
        racial_traits: Vec::new(),
        proficiencies: Proficiencies {
            armor: Vec::new(),
            tool: Vec::new(),
            saving_throws: Vec::new(),
            skills: Vec::new(),
        },
    };
    let items: Vec<Item> = Vec::new();
    character.recalculate_stats(&items);
    character
}

/// Whether the character is proficient in what a roll tests: the skill of a
/// skill check, or the ability of a saving throw.
pub open spec fn is_proficient(character: Character, roll_type: RollType) -> bool {
    match roll_type {
        RollType::SkillCheck(skill) => character.proficiencies.skills@.contains(skill),
        RollType::Save(ability) => character.proficiencies.saving_throws@.contains(ability),
        _ => false,
    }
}

/// Whether armor hampers a roll: it does a hit roll, and a check or a saving
/// throw of strength or dexterity.
pub open spec fn is_hampered_by_armor(roll_type: RollType) -> bool {
    match roll_type {
        RollType::Hit => true,
        RollType::SkillCheck(skill) => skill.spec_ability() == AbilityType::Strength
            || skill.spec_ability() == AbilityType::Dexterity,
        RollType::AbilityCheck(ability) => ability == AbilityType::Strength || ability
            == AbilityType::Dexterity,
        RollType::Save(ability) => ability == AbilityType::Strength || ability
            == AbilityType::Dexterity,
        _ => false,
    }
}

/// Whether an entry of a character's equipment names, among `items`, a piece
/// of armor of a type that is not among `armor`.
pub open spec fn is_unfamiliar_armor(
    entry: EquipmentEntry,
    items: Seq<Item>,
    armor: Seq<ArmorType>,
) -> bool {
    &&& item_by_id(items, entry.item_id) matches Some(item)
    &&& item.item_type matches ItemType::Armor(piece)
    &&& !armor.contains(piece.armor_type)
}

/// Whether the character carries armor that it is not proficient with.
pub open spec fn carries_unfamiliar_armor(character: Character, items: Seq<Item>) -> bool {
    exists|k: int|
        0 <= k < character.equipment@.len() && is_unfamiliar_armor(
            #[trigger] character.equipment@[k],
            items,
            character.proficiencies.armor@,
        )
}

/// How a character makes a roll: with disadvantage, where armor hampers the
/// roll and the character carries armor it is not proficient with; or else
/// with advantage, where it is proficient in what the roll tests; or else
/// normally.
pub open spec fn roll_modifier(
    character: Character,
    items: Seq<Item>,
    roll_type: RollType,
) -> RollModifier {
    if is_hampered_by_armor(roll_type) && carries_unfamiliar_armor(character, items) {
        RollModifier::Disadvantage
    } else if is_proficient(character, roll_type) {
        RollModifier::Advantage
    } else {
        RollModifier::Normal
    }
}

fn has_skill(skills: &Vec<SkillType>, skill: SkillType) -> (r: bool)
    ensures
        r == skills@.contains(skill),
{
    let mut i: usize = 0;
    while i < skills.len()
        invariant
            i <= skills@.len(),
            forall|j: int| 0 <= j < i ==> skills@[j] != skill,
        decreases skills@.len() - i,
    {
        if skills[i] == skill {
            return true;
        }
        i += 1;
    }
    false
}

fn has_ability(abilities: &Vec<AbilityType>, ability: AbilityType) -> (r: bool)
    ensures
        r == abilities@.contains(ability),
{
    let mut i: usize = 0;
    while i < abilities.len()
        invariant
            i <= abilities@.len(),
            forall|j: int| 0 <= j < i ==> abilities@[j] != ability,
        decreases abilities@.len() - i,
    {
        if abilities[i] == ability {
            return true;
        }
        i += 1;
    }
    false
}

fn has_armor_type(armor: &Vec<ArmorType>, armor_type: ArmorType) -> (r: bool)
    ensures
        r == armor@.contains(armor_type),
{
    let mut i: usize = 0;
    while i < armor.len()
        invariant
            i <= armor@.len(),
            forall|j: int| 0 <= j < i ==> armor@[j] != armor_type,
        decreases armor@.len() - i,
    {
        if armor[i] == armor_type {
            return true;
        }
        i += 1;
    }
    false
}

/// How a character makes a roll. `items` are the known items; an entry of
/// the character's equipment that names none of them counts for nothing.
pub fn get_character_roll_stats(character: &Character, items: &Vec<Item>, roll_type: RollType) -> (
    modifier: RollModifier
)
    ensures
        modifier == roll_modifier(*character, items@, roll_type),
{
    let mut modifier = RollModifier::Normal;
    match roll_type {
        RollType::SkillCheck(skill) => {
            if has_skill(&character.proficiencies.skills, skill) {
                modifier = RollModifier::Advantage;
            }
        },
        RollType::Save(ability) => {
            if has_ability(&character.proficiencies.saving_throws, ability) {
                modifier = RollModifier::Advantage;
            }
        },
        _ => {},
    }
    let ability = match roll_type.subject() {
        Some(subject) => Some(subject.ability()),
        None => None,
    };
    let hampered = match ability {
        Some(AbilityType::Strength) => true,
        Some(AbilityType::Dexterity) => true,
        _ => match roll_type {
            RollType::Hit => true,
            _ => false,
        },
    };
    assert(hampered == is_hampered_by_armor(roll_type));
    if hampered {
        let mut i: usize = 0;
        while i < character.equipment.len()
            invariant
                i <= character.equipment@.len(),
                is_hampered_by_armor(roll_type),
                forall|j: int|
                    0 <= j < i ==> !is_unfamiliar_armor(
                        #[trigger] character.equipment@[j],
                        items@,
                        character.proficiencies.armor@,
                    ),
            decreases character.equipment@.len() - i,
        {
            let entry = character.equipment[i];
            match fetch_item_by_id(items, entry.item_id) {
                Some(k) => {
                    proof {
                        lemma_first_index_found(
                            items@,
                            |item: Item| item.id == entry.item_id,
                            k as int,
                        );
                    }
                    if let ItemType::Armor(armor) = &items[k].item_type {
                        if !has_armor_type(&character.proficiencies.armor, armor.armor_type) {
                            assert(is_unfamiliar_armor(
                                character.equipment@[i as int],
                                items@,
                                character.proficiencies.armor@,
                            ));
                            return RollModifier::Disadvantage;
                        }
                    }
                },
                None => {
                    proof {
                        lemma_first_index_missing(items@, |item: Item| item.id == entry.item_id);
                    }
                },
            }
            i += 1;
        }
    }
    modifier
}

} // verus!
