use crate::arith::{add_clamped, add_clamped_i64, clamp_i32, clamp_i64};
use crate::character::Character;
use crate::typedid::{TypedId, TypedIdMarker};
use rand::Rng;
use vstd::prelude::*;

verus! {

/// Marks the identifiers of items.
#[derive(Copy, Clone, Debug, PartialEq, Eq)]
pub struct ItemMarker;

pub type ItemId = TypedId<ItemMarker>;

impl TypedIdMarker for ItemMarker {
    open spec fn spec_tag() -> Seq<char> {
        "ITM"@
    }

    fn tag() -> &'static str {
        "ITM"
    }
}

#[derive(Clone, Debug, PartialEq, Eq)]
pub struct Item {
    pub id: ItemId,
    pub name: String,
    pub weight: i32,
    pub value: i32,
    pub item_type: ItemType,
}

#[derive(Clone, Debug, PartialEq, Eq)]
pub enum ItemType {
    Weapon(Weapon),
    Armor(Armor),
}

impl ItemType {
    /// The weapon, if the item is one.
    pub fn as_weapon(&self) -> (r: Option<&Weapon>)
        ensures
            r == match *self {
                ItemType::Weapon(weapon) => Some(&weapon),
                ItemType::Armor(_) => None,
            },
    {
        match self {
            ItemType::Weapon(weapon) => Some(weapon),
            _ => None,
        }
    }

    /// The armor, if the item is a piece of it.
    pub fn as_armor(&self) -> (r: Option<&Armor>)
        ensures
            r == match *self {
                ItemType::Armor(armor) => Some(&armor),
                ItemType::Weapon(_) => None,
            },
    {
        match self {
            ItemType::Armor(armor) => Some(armor),
            _ => None,
        }
    }

    /// The weapon, if the item is one, and nothing of the item otherwise.
    pub fn into_weapon(self) -> (r: Option<Weapon>)
        ensures
            r == match self {
                ItemType::Weapon(weapon) => Some(weapon),
                ItemType::Armor(_) => None,
            },
    {
        match self {
            ItemType::Weapon(weapon) => Some(weapon),
            _ => None,
        }
    }
}

#[derive(Clone, Debug, PartialEq, Eq)]
pub struct Weapon {
    pub damage_amount: Dice,
    pub damage_type: DamageType,
    pub properties: Vec<WeaponProperty>,
}

/// The reach of a melee weapon without the `Reach` property, in feet.
pub const MELEE_RANGE: i64 = 5;

/// What each `Reach` property adds to a melee weapon's range, in feet.
pub const REACH_BONUS: i64 = 5;

/// The normal range of a weapon whose remaining properties are `properties`,
/// when the properties before them gave it the melee range `melee`: the normal
/// range of the first ammunition or thrown property, or else the melee range
/// with the bonus of every `Reach`, held at the largest `i64`.
pub open spec fn normal_range_from(properties: Seq<WeaponProperty>, melee: int) -> int
    decreases properties.len(),
{
    if properties.len() == 0 {
        melee
    } else {
        match properties[0] {
            WeaponProperty::Ammunition(range) => range.normal as int,
            WeaponProperty::Thrown(range) => range.normal as int,
            WeaponProperty::Reach => normal_range_from(
                properties.drop_first(),
                clamp_i64(melee + REACH_BONUS),
            ),
            _ => normal_range_from(properties.drop_first(), melee),
        }
    }
}

impl Weapon {
    /// The weapon's normal range in feet.
    pub open spec fn spec_normal_range(&self) -> int {
        normal_range_from(self.properties@, MELEE_RANGE as int)
    }

    /// The weapon's normal range in feet.
    pub fn normal_range(&self) -> (range: i64)
        ensures
            range == self.spec_normal_range(),
    {
        let mut melee_range: i64 = MELEE_RANGE;
        let mut i: usize = 0;
        assert(self.properties@.skip(0) =~= self.properties@);
        while i < self.properties.len()
            invariant
                i <= self.properties@.len(),
                normal_range_from(self.properties@, MELEE_RANGE as int) == normal_range_from(
                    self.properties@.skip(i as int),
                    melee_range as int,
                ),
            decreases self.properties@.len() - i,
        {
            proof {
                let rest = self.properties@.skip(i as int);
                assert(rest[0] == self.properties@[i as int]);
                assert(rest.drop_first() =~= self.properties@.skip(i + 1));
            }
            match self.properties[i] {
                WeaponProperty::Ammunition(range) => {
                    return range.normal as i64;
                },
                WeaponProperty::Thrown(range) => {
                    return range.normal as i64;
                },
                WeaponProperty::Reach => {
                    melee_range = add_clamped_i64(melee_range, REACH_BONUS);
                },
                _ => {},
            }
            i += 1;
        }
        melee_range
    }
}

#[derive(Copy, Clone, Debug, PartialEq, Eq)]
pub enum WeaponProperty {
    Ammunition(Range),
    Finesse,
    Heavy,
    Light,
    Loading,
    Reach,
    Special,
    Thrown(Range),
    TwoHanded,
    Versatile { two_handed_damage: Dice },
}

/// How far a ranged weapon carries, in feet.
#[derive(Copy, Clone, Debug, PartialEq, Eq, Structural)]
pub struct Range {
    pub normal: i32,
    pub long: i32,
}

#[derive(Copy, Clone, Debug, PartialEq, Eq, Structural)]
pub enum DamageType {
    Acid,
    Bludgeoning,
    Cold,
    Fire,
    Force,
    Lightning,
    Necrotic,
    Piercing,
    Poison,
    Psychic,
    Radiant,
    Slashing,
    Thunder,
}

#[derive(Copy, Clone, Debug, PartialEq, Eq, Structural)]
pub enum Dice {
    D4,
    D6,
    D8,
    D10,
    D12,
    D20,
}

/// `gen_range(low..=high)` on `rand::thread_rng()`. The value is random; the
/// crate promises one within the bounds, and panics on an empty range.
#[verifier::external_body]
fn random_in_range(low: i32, high: i32) -> (value: i32)
    requires
        low <= high,
    ensures
        low <= value <= high,
{
    rand::thread_rng().gen_range(low..=high)
}

impl Dice {
    /// The number of faces.
    pub open spec fn spec_sides(&self) -> int {
        match *self {
            Dice::D4 => 4,
            Dice::D6 => 6,
            Dice::D8 => 8,
            Dice::D10 => 10,
            Dice::D12 => 12,
            Dice::D20 => 20,
        }
    }

    /// The number of faces.
    pub fn sides(&self) -> (sides: i32)
        ensures
            sides == self.spec_sides(),
    {
        match self {
            Dice::D4 => 4,
            Dice::D6 => 6,
            Dice::D8 => 8,
            Dice::D10 => 10,
            Dice::D12 => 12,
            Dice::D20 => 20,
        }
    }

    /// One throw of the die: a face from 1 to the number of faces.
    pub fn roll(&self) -> (face: i32)
        ensures
            1 <= face <= self.spec_sides(),
    {
        random_in_range(1, self.sides())
    }
}

#[derive(Copy, Clone, Debug, PartialEq, Eq)]
pub struct Armor {
    pub base_armor_class: i32,
    pub armor_type: ArmorType,
    pub strength_requirement: Option<i32>,
    pub stealth_disadvantage: bool,
}

/// The most that dexterity adds to the armor class of medium armor.
pub const MEDIUM_ARMOR_DEXTERITY_CAP: i32 = 2;

/// What a shield adds to the armor class.
pub const SHIELD_BONUS: i32 = 2;

impl Armor {
    /// What the wearer's dexterity modifier adds to this armor's class.
    pub open spec fn spec_dexterity_bonus(&self, dexterity_modifier: int) -> int {
        match self.armor_type {
            ArmorType::Light => dexterity_modifier,
            ArmorType::Medium => if dexterity_modifier < MEDIUM_ARMOR_DEXTERITY_CAP {
                dexterity_modifier
            } else {
                MEDIUM_ARMOR_DEXTERITY_CAP as int
            },
            ArmorType::Heavy => 0,
            ArmorType::Shield => SHIELD_BONUS as int,
        }
    }

    /// The armor class this piece gives to a wearer with the given dexterity
    /// modifier: its base class and the dexterity bonus, held within `i32`.
    pub open spec fn spec_effective_armor_class(&self, dexterity_modifier: int) -> int {
        clamp_i32(self.base_armor_class + self.spec_dexterity_bonus(dexterity_modifier))
    }

    /// The armor class this piece gives to the character.
    pub fn effective_armor_class(&self, character: &Character) -> (armor_class: i32)
        ensures
            armor_class == self.spec_effective_armor_class(
                character.stats.abilities.spec_dexterity_modifier(),
            ),
    {
        let modifier: i32 = character.stats.abilities.dexterity_modifier();
        let ac_from_dex: i32 = match self.armor_type {
            ArmorType::Light => modifier,
            ArmorType::Medium => if modifier < MEDIUM_ARMOR_DEXTERITY_CAP {
                modifier
            } else {
                MEDIUM_ARMOR_DEXTERITY_CAP
            },
            ArmorType::Heavy => 0,
            ArmorType::Shield => SHIELD_BONUS,
        };
        add_clamped(self.base_armor_class, ac_from_dex)
    }
}

#[derive(Copy, Clone, Debug, PartialEq, Eq, Structural)]
pub enum ArmorType {
    Light,
    Medium,
    Heavy,
    Shield,
}

/// The first of `items` with the given identifier.
pub fn fetch_item_by_id(items: &Vec<Item>, item_id: ItemId) -> (found: Option<usize>)
    ensures
        match found {
            Some(i) => i < items@.len() && items@[i as int].id == item_id && forall|j: int|
                0 <= j < i ==> items@[j].id != item_id,
            None => forall|j: int| 0 <= j < items@.len() ==> items@[j].id != item_id,
        },
{
    let mut i: usize = 0;
    while i < items.len()
        invariant
            i <= items@.len(),
            forall|j: int| 0 <= j < i ==> items@[j].id != item_id,
        decreases items@.len() - i,
    {
        if items[i].id == item_id {
            return Some(i);
        }
        i += 1;
    }
    None
}

} // verus!
