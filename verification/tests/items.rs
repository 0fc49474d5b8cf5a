use kmdnd::character::manager::create_character;
use kmdnd::campaign::create_campaign;
use kmdnd::clock::Timestamp;
use kmdnd::item::{
    fetch_item_by_id, Armor, ArmorType, DamageType, Dice, Item, ItemId, ItemType, Range, Weapon,
    WeaponProperty,
};
use kmdnd::operation::attack::AttackMethod;
use kmdnd::operation::{AbilityType, SkillType};

fn items_weapon(properties: Vec<WeaponProperty>) -> Weapon {
    Weapon { damage_amount: Dice::D6, damage_type: DamageType::Piercing, properties }
}

fn items_armor(base_armor_class: i32, armor_type: ArmorType) -> Armor {
    Armor { base_armor_class, armor_type, strength_requirement: None, stealth_disadvantage: false }
}

#[test]
fn melee_weapon_reaches_five_feet() {
    assert_eq!(items_weapon(vec![]).normal_range(), 5);
    assert_eq!(items_weapon(vec![WeaponProperty::Light, WeaponProperty::Finesse]).normal_range(), 5);
}

#[test]
fn reach_adds_five_feet_each_time() {
    assert_eq!(items_weapon(vec![WeaponProperty::Reach]).normal_range(), 10);
    assert_eq!(
        items_weapon(vec![WeaponProperty::Reach, WeaponProperty::Heavy, WeaponProperty::Reach])
            .normal_range(),
        15
    );
}

#[test]
fn ranged_weapon_has_the_normal_range_of_its_first_ranged_property() {
    let shortbow = items_weapon(vec![
        WeaponProperty::Ammunition(Range { normal: 80, long: 320 }),
        WeaponProperty::TwoHanded,
    ]);
    assert_eq!(shortbow.normal_range(), 80);
    let javelin = items_weapon(vec![
        WeaponProperty::Reach,
        WeaponProperty::Thrown(Range { normal: 30, long: 120 }),
        WeaponProperty::Ammunition(Range { normal: 80, long: 320 }),
    ]);
    assert_eq!(javelin.normal_range(), 30);
    let odd = items_weapon(vec![WeaponProperty::Thrown(Range { normal: -3, long: 0 })]);
    assert_eq!(odd.normal_range(), -3);
}

#[test]
fn attack_method_range_is_that_of_the_weapon_or_five_feet_unarmed() {
    assert_eq!(AttackMethod::Unarmed(DamageType::Bludgeoning).normal_range(), 5);
    assert_eq!(AttackMethod::Weapon(items_weapon(vec![WeaponProperty::Reach])).normal_range(), 10);
    assert_eq!(
        AttackMethod::ImprovisedWeapon(items_weapon(vec![WeaponProperty::Thrown(Range {
            normal: 20,
            long: 60
        })]))
        .normal_range(),
        20
    );
}

#[test]
fn dexterity_modifier_is_half_the_excess_over_ten_towards_zero() {
    let campaign = create_campaign("Table".to_string(), Timestamp { millis: 1 });
    let mut character = create_character(&campaign, "Ann".to_string(), Timestamp { millis: 1 });
    assert_eq!(character.stats.abilities.dexterity_modifier(), 0);
    for (dexterity, modifier) in [(10, 0), (11, 0), (12, 1), (15, 2), (20, 5), (9, 0), (8, -1), (7, -1), (1, -4)]
    {
        character.stats.abilities.dexterity = dexterity;
        assert_eq!(character.stats.abilities.dexterity_modifier(), modifier);
    }
    character.stats.abilities.dexterity = i32::MIN;
    assert_eq!(character.stats.abilities.dexterity_modifier(), i32::MIN / 2);
    character.stats.abilities.dexterity = i32::MAX;
    assert_eq!(character.stats.abilities.dexterity_modifier(), (i32::MAX - 10) / 2);
}

#[test]
fn armor_class_depends_on_the_type_of_armor() {
    let campaign = create_campaign("Table".to_string(), Timestamp { millis: 1 });
    let mut character = create_character(&campaign, "Ann".to_string(), Timestamp { millis: 1 });
    character.stats.abilities.dexterity = 18;
    assert_eq!(items_armor(11, ArmorType::Light).effective_armor_class(&character), 15);
    assert_eq!(items_armor(14, ArmorType::Medium).effective_armor_class(&character), 16);
    assert_eq!(items_armor(18, ArmorType::Heavy).effective_armor_class(&character), 18);
    assert_eq!(items_armor(0, ArmorType::Shield).effective_armor_class(&character), 2);
    character.stats.abilities.dexterity = 6;
    assert_eq!(items_armor(11, ArmorType::Light).effective_armor_class(&character), 9);
    assert_eq!(items_armor(14, ArmorType::Medium).effective_armor_class(&character), 12);
    assert_eq!(items_armor(i32::MAX, ArmorType::Shield).effective_armor_class(&character), i32::MAX);
}

#[test]
fn dice_show_a_face_between_one_and_their_sides() {
    for (dice, sides) in [
        (Dice::D4, 4),
        (Dice::D6, 6),
        (Dice::D8, 8),
        (Dice::D10, 10),
        (Dice::D12, 12),
        (Dice::D20, 20),
    ] {
        assert_eq!(dice.sides(), sides);
        let mut seen_other_than_one = false;
        for _ in 0..200 {
            let face = dice.roll();
            assert!(1 <= face && face <= sides);
            seen_other_than_one = seen_other_than_one || face != 1;
        }
        assert!(seen_other_than_one);
    }
}

#[test]
fn item_type_gives_its_weapon_or_its_armor() {
    let weapon = ItemType::Weapon(items_weapon(vec![WeaponProperty::Light]));
    let armor = ItemType::Armor(items_armor(4, ArmorType::Medium));
    assert_eq!(weapon.as_weapon(), Some(&items_weapon(vec![WeaponProperty::Light])));
    assert_eq!(weapon.as_armor(), None);
    assert_eq!(armor.as_armor(), Some(&items_armor(4, ArmorType::Medium)));
    assert_eq!(armor.as_weapon(), None);
    assert_eq!(armor.into_weapon(), None);
    assert_eq!(weapon.into_weapon(), Some(items_weapon(vec![WeaponProperty::Light])));
}

#[test]
fn fetch_item_by_id_finds_the_first_with_the_identifier() {
    let id = ItemId::from_u128(7);
    let item = |id: ItemId, name: &str| Item {
        id,
        name: name.to_string(),
        weight: 1,
        value: 1,
        item_type: ItemType::Armor(items_armor(1, ArmorType::Light)),
    };
    let items = vec![item(ItemId::from_u128(1), "a"), item(id, "b"), item(id, "c")];
    assert_eq!(fetch_item_by_id(&items, id), Some(1));
    assert_eq!(fetch_item_by_id(&items, ItemId::from_u128(9)), None);
    assert_eq!(fetch_item_by_id(&vec![], id), None);
}

#[test]
fn every_skill_has_its_ability() {
    assert_eq!(SkillType::Acrobatics.ability(), AbilityType::Dexterity);
    assert_eq!(SkillType::AnimalHandling.ability(), AbilityType::Wisdom);
    assert_eq!(SkillType::Arcana.ability(), AbilityType::Intelligence);
    assert_eq!(SkillType::Athletics.ability(), AbilityType::Strength);
    assert_eq!(SkillType::Deception.ability(), AbilityType::Charisma);
    assert_eq!(SkillType::History.ability(), AbilityType::Intelligence);
    assert_eq!(SkillType::Insight.ability(), AbilityType::Wisdom);
    assert_eq!(SkillType::Intimidation.ability(), AbilityType::Charisma);
    assert_eq!(SkillType::Investigation.ability(), AbilityType::Intelligence);
    assert_eq!(SkillType::Medicine.ability(), AbilityType::Wisdom);
    assert_eq!(SkillType::Nature.ability(), AbilityType::Intelligence);
    assert_eq!(SkillType::Perception.ability(), AbilityType::Wisdom);
    assert_eq!(SkillType::Performance.ability(), AbilityType::Charisma);
    assert_eq!(SkillType::Persuasion.ability(), AbilityType::Charisma);
    assert_eq!(SkillType::Religion.ability(), AbilityType::Intelligence);
    assert_eq!(SkillType::SleightOfHand.ability(), AbilityType::Dexterity);
    assert_eq!(SkillType::Stealth.ability(), AbilityType::Dexterity);
    assert_eq!(SkillType::Survival.ability(), AbilityType::Wisdom);
}
