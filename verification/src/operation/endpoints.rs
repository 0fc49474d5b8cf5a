use crate::character::{CharacterId, Position};
use crate::error::Error;
use crate::item::{DamageType, Item, ItemId, ItemType};
use crate::operation::attack::AttackMethod;
use crate::operation::{InteractionId, RollType, SpellTarget};
use vstd::prelude::*;

verus! {

/// A request to move a character.
#[derive(Copy, Clone, Debug, PartialEq, Eq)]
pub struct MoveBody {
    pub character_id: CharacterId,
    pub position: Position,
    pub ignore_violations: bool,
}

/// A request to have a character take an action.
#[derive(Clone, Debug, PartialEq, Eq)]
pub struct ActionBody {
    pub character_id: CharacterId,
    pub action_type: ActionTypeBody,
    pub ignore_violations: bool,
}

#[derive(Clone, Debug, PartialEq, Eq)]
pub enum ActionTypeBody {
    Attack(AttackBody),
    CastSpell(CastBody),
    Dash,
    Disengage,
    Dodge,
    Help,
    Hide,
    Ready,
    Search,
    UseObject,
}

#[derive(Copy, Clone, Debug, PartialEq, Eq)]
pub struct AttackBody {
    pub target_character_id: CharacterId,
    pub method: AttackMethodBody,
}

#[derive(Clone, Debug, PartialEq, Eq)]
pub struct CastBody {
    pub name: String,
    pub target: SpellTarget,
}

#[derive(Copy, Clone, Debug, PartialEq, Eq)]
pub enum AttackMethodBody {
    Unarmed { damage_type: DamageType },
    Weapon { weapon_id: ItemId },
    ImprovisedWeapon { weapon_id: ItemId },
}

/// The attack method that a request names, where `item` is what the store
/// holds under the identifier of the weapon: an unarmed attack needs no item;
/// a weapon must exist and be a weapon.
pub open spec fn attack_method_of(method: AttackMethodBody, item: Option<Item>) -> Result<
    AttackMethod,
    Error,
> {
    match method {
        AttackMethodBody::Unarmed { damage_type } => Ok(AttackMethod::Unarmed(damage_type)),
        AttackMethodBody::Weapon { weapon_id } => match item {
            None => Err(Error::ItemDoesNotExist { item_id: weapon_id }),
            Some(item) => match item.item_type {
                ItemType::Weapon(weapon) => Ok(AttackMethod::Weapon(weapon)),
                ItemType::Armor(_) => Err(Error::ItemIsNotAWeapon { item_id: item.id }),
            },
        },
        AttackMethodBody::ImprovisedWeapon { weapon_id } => match item {
            None => Err(Error::ItemDoesNotExist { item_id: weapon_id }),
            Some(item) => match item.item_type {
                ItemType::Weapon(weapon) => Ok(AttackMethod::ImprovisedWeapon(weapon)),
                ItemType::Armor(_) => Err(Error::ItemIsNotAWeapon { item_id: item.id }),
            },
        },
    }
}

impl AttackMethodBody {
    /// The identifier of the weapon that the method names, if it names one.
    pub fn weapon_id(&self) -> (r: Option<ItemId>)
        ensures
            r == match *self {
                AttackMethodBody::Unarmed { .. } => None,
                AttackMethodBody::Weapon { weapon_id } => Some(weapon_id),
                AttackMethodBody::ImprovisedWeapon { weapon_id } => Some(weapon_id),
            },
    {
        match *self {
            AttackMethodBody::Unarmed { .. } => None,
            AttackMethodBody::Weapon { weapon_id } => Some(weapon_id),
            AttackMethodBody::ImprovisedWeapon { weapon_id } => Some(weapon_id),
        }
    }

    /// The attack method that the request names. `item` is what the store
    /// holds under the identifier of the weapon, if the method names one.
    pub fn into_attack_method(self, item: Option<Item>) -> (r: Result<AttackMethod, Error>)
        ensures
            r == attack_method_of(self, item),
    {
        match self {
            AttackMethodBody::Unarmed { damage_type } => Ok(AttackMethod::Unarmed(damage_type)),
            AttackMethodBody::Weapon { weapon_id } => {
                let item = match item {
                    Some(item) => item,
                    None => {
                        return Err(Error::ItemDoesNotExist { item_id: weapon_id });
                    },
                };
                let item_id = item.id;
                match item.item_type.into_weapon() {
                    Some(weapon) => Ok(AttackMethod::Weapon(weapon)),
                    None => Err(Error::ItemIsNotAWeapon { item_id }),
                }
            },
            AttackMethodBody::ImprovisedWeapon { weapon_id } => {
                let item = match item {
                    Some(item) => item,
                    None => {
                        return Err(Error::ItemDoesNotExist { item_id: weapon_id });
                    },
                };
                let item_id = item.id;
                match item.item_type.into_weapon() {
                    Some(weapon) => Ok(AttackMethod::ImprovisedWeapon(weapon)),
                    None => Err(Error::ItemIsNotAWeapon { item_id }),
                }
            },
        }
    }
}

/// A request for a roll by a character.
#[derive(Copy, Clone, Debug, PartialEq, Eq)]
pub struct RollBody {
    pub character_id: CharacterId,
    pub roll: RollType,
}

/// The answer to a request for a roll.
#[derive(Copy, Clone, Debug, PartialEq, Eq, Structural)]
pub struct RollResultBody {
    pub result: i32,
}

/// The result of a roll that an interaction asked for.
#[derive(Copy, Clone, Debug, PartialEq, Eq)]
pub struct SubmitInteractionBody {
    pub interaction_id: InteractionId,
    pub character_id: CharacterId,
    pub result: i32,
}

} // verus!
