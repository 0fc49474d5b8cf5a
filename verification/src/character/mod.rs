use crate::campaign::CampaignId;
use crate::character::race::{Race, RacialTrait};
use crate::clock::Timestamp;
use crate::arith::{add_clamped, clamp_i32, half_toward_zero, halve, sub_clamped};
use crate::item::{ArmorType, Item, ItemId, ItemType};
use crate::operation::{AbilityType, SkillType};
use crate::query::{first_match, lemma_first_index_found, lemma_first_index_missing};
use crate::typedid::{TypedId, TypedIdMarker};
use crate::user::UserId;
use vstd::prelude::*;

pub mod db;
pub mod endpoints;
pub mod manager;
pub mod race;

verus! {

/// Marks the identifiers of characters.
#[derive(Copy, Clone, Debug, PartialEq, Eq)]
pub struct CharacterMarker;

pub type CharacterId = TypedId<CharacterMarker>;

impl TypedIdMarker for CharacterMarker {
    open spec fn spec_tag() -> Seq<char> {
        "CHR"@
    }

    fn tag() -> &'static str {
        "CHR"
    }
}

#[derive(Clone, Debug, PartialEq, Eq)]
pub struct Character {
    pub id: CharacterId,
    pub owner: CharacterOwner,
    pub name: String,
    pub created_at: Timestamp,
    pub modified_at: Timestamp,
    pub stats: CharacterStats,
    pub equipment: Vec<EquipmentEntry>,
    pub position: Option<Position>,
    pub current_hit_points: i32,
    pub maximum_hit_points: i32,
    pub race: Race,
    pub racial_traits: Vec<RacialTrait>,
    pub proficiencies: Proficiencies,
}

/// The armor class of a character who wears no armor.
pub const BASE_ARMOR_CLASS: i32 = 10;

/// The item among `items` that an identifier names: the first that bears it.
pub open spec fn item_by_id(items: Seq<Item>, item_id: ItemId) -> Option<Item> {
    first_match(items, |item: Item| item.id == item_id)
}

/// What one entry of a character's equipment adds to the armor class: the
/// effective armor class of the piece, where the entry is equipped and names a
/// piece of armor among `items`, and nothing otherwise.
pub open spec fn entry_armor_class(
    entry: EquipmentEntry,
    items: Seq<Item>,
    dexterity_modifier: int,
) -> int {
    if !entry.equiped {
        0
    } else {
        match item_by_id(items, entry.item_id) {
            Some(item) => match item.item_type {
                ItemType::Armor(armor) => armor.spec_effective_armor_class(dexterity_modifier),
                ItemType::Weapon(_) => 0,
            },
            None => 0,
        }
    }
}

/// The armor class that `equipment` gives on top of `armor_class`, entry by
/// entry, the sum held within `i32` at every step.
pub open spec fn armor_class_with(
    equipment: Seq<EquipmentEntry>,
    items: Seq<Item>,
    dexterity_modifier: int,
    armor_class: int,
) -> int
    decreases equipment.len(),
{
    if equipment.len() == 0 {
        armor_class
    } else {
        armor_class_with(
            equipment.drop_first(),
            items,
            dexterity_modifier,
            clamp_i32(armor_class + entry_armor_class(equipment[0], items, dexterity_modifier)),
        )
    }
}

impl Character {
    /// The campaign that the character belongs to, if it belongs to one.
    pub open spec fn spec_campaign_id(&self) -> Option<CampaignId> {
        self.owner.spec_campaign_id()
    }

    /// The armor class that the character's equipment gives it.
    pub open spec fn spec_armor_class(&self, items: Seq<Item>) -> int {
        armor_class_with(
            self.equipment@,
            items,
            self.stats.abilities.spec_dexterity_modifier(),
            BASE_ARMOR_CLASS as int,
        )
    }

    /// Sets the character's armor class to what its equipped armor gives it.
    /// `items` are the known items; an entry that names none of them counts for
    /// nothing.
    pub fn recalculate_stats(&mut self, items: &Vec<Item>)
        ensures
            *final(self) == (Character {
                stats: CharacterStats {
                    armor_class: old(self).spec_armor_class(items@) as i32,
                    ..old(self).stats
                },
                ..*old(self)
            }),
            i32::MIN <= old(self).spec_armor_class(items@) <= i32::MAX,
    {
        let ghost dex = self.stats.abilities.spec_dexterity_modifier();
        let mut armor_class: i32 = BASE_ARMOR_CLASS;
        let mut i: usize = 0;
        assert(self.equipment@.skip(0) =~= self.equipment@);
        while i < self.equipment.len()
            invariant
                i <= self.equipment@.len(),
                *self == *old(self),
                dex == self.stats.abilities.spec_dexterity_modifier(),
                armor_class_with(self.equipment@, items@, dex, BASE_ARMOR_CLASS as int)
                    == armor_class_with(
                    self.equipment@.skip(i as int),
                    items@,
                    dex,
                    armor_class as int,
                ),
            decreases self.equipment@.len() - i,
        {
            proof {
                let rest = self.equipment@.skip(i as int);
                assert(rest[0] == self.equipment@[i as int]);
                assert(rest.drop_first() =~= self.equipment@.skip(i + 1));
            }
            let entry = self.equipment[i];
            let mut piece: i32 = 0;
            if entry.equiped {
                match crate::item::fetch_item_by_id(items, entry.item_id) {
                    Some(k) => {
                        proof {
                            lemma_first_index_found(
                                items@,
                                |item: Item| item.id == entry.item_id,
                                k as int,
                            );
                        }
                        match &items[k].item_type {
                            ItemType::Armor(armor) => {
                                piece = armor.effective_armor_class(self);
                            },
                            ItemType::Weapon(_) => {},
                        }
                    },
                    None => {
                        proof {
                            lemma_first_index_missing(
                                items@,
                                |item: Item| item.id == entry.item_id,
                            );
                        }
                    },
                }
            }
            assert(piece == entry_armor_class(entry, items@, dex));
            armor_class = add_clamped(armor_class, piece);
            i += 1;
        }
        self.stats.armor_class = armor_class;
    }
}

/// A character belongs to a campaign, to a user, or to a user within a campaign.
#[derive(Copy, Clone, Debug, PartialEq, Eq)]
pub enum CharacterOwner {
    Campaign(CampaignId),
    User(UserId),
    UserInCampaign(UserId, CampaignId),
}

impl CharacterOwner {
    /// The campaign of the owner, if it names one.
    pub open spec fn spec_campaign_id(&self) -> Option<CampaignId> {
        match *self {
            CharacterOwner::Campaign(campaign_id) => Some(campaign_id),
            CharacterOwner::User(_) => None,
            CharacterOwner::UserInCampaign(_, campaign_id) => Some(campaign_id),
        }
    }

    /// The user of the owner, if it names one.
    pub open spec fn spec_user_id(&self) -> Option<UserId> {
        match *self {
            CharacterOwner::Campaign(_) => None,
            CharacterOwner::User(user_id) => Some(user_id),
            CharacterOwner::UserInCampaign(user_id, _) => Some(user_id),
        }
    }

    /// The campaign of the owner, if it names one.
    pub fn campaign_id(&self) -> (r: Option<CampaignId>)
        ensures
            r == self.spec_campaign_id(),
    {
        match self {
            CharacterOwner::Campaign(campaign_id) => Some(*campaign_id),
            CharacterOwner::User(_) => None,
            CharacterOwner::UserInCampaign(_, campaign_id) => Some(*campaign_id),
        }
    }

    /// The user of the owner, if it names one.
    pub fn user_id(&self) -> (r: Option<UserId>)
        ensures
            r == self.spec_user_id(),
    {
        match self {
            CharacterOwner::Campaign(_) => None,
            CharacterOwner::User(user_id) => Some(*user_id),
            CharacterOwner::UserInCampaign(user_id, _) => Some(*user_id),
        }
    }

    /// The owner that a record with these two optional fields describes. A
    /// character must have a user or a campaign: with neither there is no owner.
    pub open spec fn spec_from_parts(
        campaign_id: Option<CampaignId>,
        user_id: Option<UserId>,
    ) -> Option<CharacterOwner> {
        match (campaign_id, user_id) {
            (Some(c), None) => Some(CharacterOwner::Campaign(c)),
            (None, Some(u)) => Some(CharacterOwner::User(u)),
            (Some(c), Some(u)) => Some(CharacterOwner::UserInCampaign(u, c)),
            (None, None) => None,
        }
    }

    /// The owner that a record with these two optional fields describes.
    pub fn from_parts(campaign_id: Option<CampaignId>, user_id: Option<UserId>) -> (r: Option<
        CharacterOwner,
    >)
        ensures
            r == Self::spec_from_parts(campaign_id, user_id),
    {
        match (campaign_id, user_id) {
            (Some(c), None) => Some(CharacterOwner::Campaign(c)),
            (None, Some(u)) => Some(CharacterOwner::User(u)),
            (Some(c), Some(u)) => Some(CharacterOwner::UserInCampaign(u, c)),
            (None, None) => None,
        }
    }

    /// Reading an owner back from its two fields gives the owner.
    pub proof fn law_parts_round_trip(owner: CharacterOwner)
        ensures
            Self::spec_from_parts(owner.spec_campaign_id(), owner.spec_user_id()) == Some(owner),
    {
    }
}

#[derive(Copy, Clone, Debug, PartialEq, Eq, Structural)]
pub struct CharacterStats {
    pub abilities: CharacterAbilities,
    pub initiative: i32,
    pub speed: i32,
    pub armor_class: i32,
    pub proficiency_bonus: i32,
}

/// The statistics of a new character.
pub open spec fn default_stats() -> CharacterStats {
    CharacterStats {
        abilities: default_abilities(),
        initiative: 0,
        speed: 30,
        armor_class: 10,
        proficiency_bonus: 1,
    }
}

/// The abilities of a new character.
pub open spec fn default_abilities() -> CharacterAbilities {
    CharacterAbilities {
        strength: 10,
        dexterity: 10,
        constitution: 10,
        intelligence: 10,
        wisdom: 10,
        charisma: 10,
    }
}

impl Default for CharacterStats {
    fn default() -> (stats: CharacterStats)
        ensures
            stats == default_stats(),
    {
        CharacterStats {
            abilities: CharacterAbilities::default(),
            initiative: 0,
            speed: 30,
            armor_class: 10,
            proficiency_bonus: 1,
        }
    }
}

#[derive(Copy, Clone, Debug, PartialEq, Eq, Structural)]
pub struct CharacterAbilities {
    pub strength: i32,
    pub dexterity: i32,
    pub constitution: i32,
    pub intelligence: i32,
    pub wisdom: i32,
    pub charisma: i32,
}

impl CharacterAbilities {
    /// Half of what the dexterity is above 10, rounded towards zero; the
    /// difference is held within `i32`.
    pub open spec fn spec_dexterity_modifier(&self) -> int {
        half_toward_zero(clamp_i32(self.dexterity - 10))
    }

    /// What the dexterity adds to rolls and to the armor class.
    pub fn dexterity_modifier(&self) -> (modifier: i32)
        ensures
            modifier == self.spec_dexterity_modifier(),
    {
        halve(sub_clamped(self.dexterity, 10))
    }
}

impl Default for CharacterAbilities {
    fn default() -> (abilities: CharacterAbilities)
        ensures
            abilities == default_abilities(),
    {
        CharacterAbilities {
            strength: 10,
            dexterity: 10,
            constitution: 10,
            intelligence: 10,
            wisdom: 10,
            charisma: 10,
        }
    }
}

#[derive(Copy, Clone, Debug, PartialEq, Eq)]
pub struct EquipmentEntry {
    pub equiped: bool,
    pub quantity: i32,
    pub item_id: ItemId,
}

/// A point of the battle map, in whole feet along each axis.
#[derive(Copy, Clone, Debug, PartialEq, Eq, Structural)]
pub struct Position {
    pub x: i32,
    pub y: i32,
    pub z: i32,
}

/// Whether `root` is the square root of `n` rounded down.
pub open spec fn is_floor_sqrt(n: int, root: int) -> bool {
    0 <= root && root * root <= n < (root + 1) * (root + 1)
}

/// The square root of `n` rounded down.
pub open spec fn floor_sqrt(n: int) -> int {
    choose|root: int| is_floor_sqrt(n, root)
}

/// A number has at most one rounded-down square root.
pub proof fn lemma_floor_sqrt_unique(n: int, a: int, b: int)
    requires
        is_floor_sqrt(n, a),
        is_floor_sqrt(n, b),
    ensures
        a == b,
{
    if a < b {
        assert((a + 1) * (a + 1) <= b * b) by (nonlinear_arith)
            requires
                0 <= a,
                a + 1 <= b,
        ;
    } else if b < a {
        assert((b + 1) * (b + 1) <= a * a) by (nonlinear_arith)
            requires
                0 <= b,
                b + 1 <= a,
        ;
    }
}

/// The square root of `n` rounded down.
pub fn integer_sqrt(n: u128) -> (root: u64)
    ensures
        is_floor_sqrt(n as int, root as int),
        root == floor_sqrt(n as int),
{
    let mut low: u128 = 0;
    let mut high: u128 = 0x1_0000_0000_0000_0000u128;
    assert(high * high > n) by (nonlinear_arith)
        requires
            high == 0x1_0000_0000_0000_0000u128,
            n <= u128::MAX,
    ;
    while high - low > 1
        invariant
            low < high <= 0x1_0000_0000_0000_0000u128,
            low * low <= n < high * high,
        decreases high - low,
    {
        let mid: u128 = low + (high - low) / 2;
        assert(mid * mid <= 0xFFFF_FFFF_FFFF_FFFFu128 * 0xFFFF_FFFF_FFFF_FFFFu128)
            by (nonlinear_arith)
            requires
                0 <= mid <= 0xFFFF_FFFF_FFFF_FFFFu128,
        ;
        if mid * mid <= n {
            low = mid;
        } else {
            high = mid;
        }
    }
    assert(is_floor_sqrt(n as int, low as int));
    proof {
        lemma_floor_sqrt_unique(n as int, low as int, floor_sqrt(n as int));
    }
    low as u64
}

impl Position {
    /// The square of the straight-line distance between two points.
    pub open spec fn spec_distance_squared(&self, other: &Position) -> int {
        (self.x - other.x) * (self.x - other.x) + (self.y - other.y) * (self.y - other.y) + (self.z
            - other.z) * (self.z - other.z)
    }

    /// The straight-line distance between two points in feet, rounded down.
    pub open spec fn spec_distance(&self, other: &Position) -> int {
        floor_sqrt(self.spec_distance_squared(other))
    }

    /// The straight-line distance between two points in feet, rounded down.
    pub fn distance(&self, other: &Position) -> (feet: u64)
        ensures
            feet == self.spec_distance(other),
            is_floor_sqrt(self.spec_distance_squared(other), feet as int),
    {
        let x: u128 = square_of_difference(self.x, other.x);
        let y: u128 = square_of_difference(self.y, other.y);
        let z: u128 = square_of_difference(self.z, other.z);
        integer_sqrt(x + y + z)
    }
}

/// The square of the difference of two coordinates.
fn square_of_difference(a: i32, b: i32) -> (square: u128)
    ensures
        square == (a - b) * (a - b),
        square <= 0xFFFF_FFFF_FFFF_FFFFu128,
{
    let difference: i64 = a as i64 - b as i64;
    let size: u64 = if difference >= 0 {
        difference as u64
    } else {
        (-difference) as u64
    };
    assert(size * size == (a - b) * (a - b)) by (nonlinear_arith)
        requires
            size == a - b || size == -(a - b),
    ;
    assert(size * size <= 0xFFFF_FFFFu64 * 0xFFFF_FFFFu64) by (nonlinear_arith)
        requires
            0 <= size <= 0xFFFF_FFFFu64,
    ;
    (size as u128) * (size as u128)
}

#[derive(Clone, Debug, PartialEq, Eq)]
pub struct Proficiencies {
    pub armor: Vec<ArmorType>,
    pub tool: Vec<ToolType>,
    pub saving_throws: Vec<AbilityType>,
    pub skills: Vec<SkillType>,
}

/// Whether a roll is made normally, with advantage or with disadvantage.
#[derive(Copy, Clone, Debug, PartialEq, Eq, Structural)]
pub enum RollModifier {
    Advantage,
    Normal,
    Disadvantage,
}

#[derive(Copy, Clone, Debug, PartialEq, Eq, Structural)]
pub enum ToolType {
    AlchemistsSupplies,
    BrewersSupplies,
    CalligrapherSupplies,
    CarpentersTools,
    CartographersTools,
    CobblersTools,
    CooksUtensils,
    GlassblowersTools,
    JewelersTools,
    LeatherworkersTools,
    MasonsTools,
    PainterTupplies,
    PottersTools,
    SmithsTools,
    TinkersTools,
    WeaversTools,
    WoodcarversTools,
    DisguiseKit,
    ForgeryKit,
    DiceSet,
    PlayingCardSet,
    HerbalismKit,
    Bagpipes,
    Drum,
    Dulcimer,
    Flute,
    Lute,
    Lyre,
    Horn,
    PanFlute,
    Shawm,
    Viol,
    NavigatorTools,
    PoisonerKit,
    TheivesTools,
}

#[derive(Copy, Clone, Debug, PartialEq, Eq, Structural)]
pub enum Language {
    Common,
    Dwarvish,
    Elvish,
    Giant,
    Gnomish,
    Goblin,
    Halfling,
    Orc,
    Abyssal,
    Celestial,
    Draconic,
    DeepSpeech,
    Infernal,
    Primordial,
    Sylvan,
    Undercommon,
}

} // verus!
