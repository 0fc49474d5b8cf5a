use crate::character::{Language, ToolType};
use crate::operation::{AbilityType, SkillType};
use vstd::prelude::*;

verus! {

#[derive(Copy, Clone, Debug, PartialEq, Eq, Structural)]
pub enum Race {
    Dwarf,
    Elf,
    Halfling,
    Human,
    Dragonborn,
    Gnome,
    HalfElf,
    HalfOrc,
    Tiefling,
}

#[derive(Clone, Debug, PartialEq, Eq)]
pub enum RacialTrait {
    AbilityScoreIncrease(Vec<AbilityType>),
    Darkvision,
    DwarvenResiliance,
    DwarvenCombatTraining,
    ToolProficiency(Vec<ToolType>),
    Stonecunning,
    Languages(Vec<Language>),
    DwarvenToughness,
    KeenSenses,
    FeyAncestry,
    Trance,
    ElfWeaponTraining,
    ExtraLanguage,
    Lucky,
    Brave,
    HalflingNimbleness,
    NaturallyStealthy,
    BreathWeapon,
    DamageResistance,
    GnomeCunning,
    ArtificersLore,
    Tinker,
    SkillVersatility(Vec<SkillType>),
    Menacing,
    RelentlessEndurance,
    SavageAttacks,
    HellishResistance,
    InfernalLegacy,
}

} // verus!
