use crate::operation::{AbilityType, RollType, SkillType};
use crate::text::{concat, str_eq};
use vstd::prelude::*;
use vstd::string::StrSliceExecFns;

verus! {

/// The ability that a name stands for.
pub open spec fn ability_from_name(name: Seq<char>) -> Option<AbilityType> {
    if name == "STRENGTH"@ {
        Some(AbilityType::Strength)
    } else if name == "DEXTERITY"@ {
        Some(AbilityType::Dexterity)
    } else if name == "CONSTITUTION"@ {
        Some(AbilityType::Constitution)
    } else if name == "INTELLIGENCE"@ {
        Some(AbilityType::Intelligence)
    } else if name == "WISDOM"@ {
        Some(AbilityType::Wisdom)
    } else if name == "CHARISMA"@ {
        Some(AbilityType::Charisma)
    } else {
        None
    }
}

impl AbilityType {
    /// The name of the ability in records and requests.
    pub open spec fn spec_name(&self) -> Seq<char> {
        match *self {
            AbilityType::Strength => "STRENGTH"@,
            AbilityType::Dexterity => "DEXTERITY"@,
            AbilityType::Constitution => "CONSTITUTION"@,
            AbilityType::Intelligence => "INTELLIGENCE"@,
            AbilityType::Wisdom => "WISDOM"@,
            AbilityType::Charisma => "CHARISMA"@,
        }
    }

    /// The name of the ability in records and requests.
    pub fn name(&self) -> (name: &'static str)
        ensures
            name@ == self.spec_name(),
    {
        match *self {
            AbilityType::Strength => "STRENGTH",
            AbilityType::Dexterity => "DEXTERITY",
            AbilityType::Constitution => "CONSTITUTION",
            AbilityType::Intelligence => "INTELLIGENCE",
            AbilityType::Wisdom => "WISDOM",
            AbilityType::Charisma => "CHARISMA",
        }
    }

    /// The ability that a name stands for, if it is the name of one.
    pub fn from_name(name: &str) -> (r: Option<AbilityType>)
        ensures
            r == ability_from_name(name@),
    {
        if str_eq(name, "STRENGTH") {
            Some(AbilityType::Strength)
        } else if str_eq(name, "DEXTERITY") {
            Some(AbilityType::Dexterity)
        } else if str_eq(name, "CONSTITUTION") {
            Some(AbilityType::Constitution)
        } else if str_eq(name, "INTELLIGENCE") {
            Some(AbilityType::Intelligence)
        } else if str_eq(name, "WISDOM") {
            Some(AbilityType::Wisdom)
        } else if str_eq(name, "CHARISMA") {
            Some(AbilityType::Charisma)
        } else {
            None
        }
    }
}

/// The skill that a name stands for.
pub open spec fn skill_from_name(name: Seq<char>) -> Option<SkillType> {
    if name == "ACROBATICS"@ {
        Some(SkillType::Acrobatics)
    } else if name == "ANIMAL-HANDLING"@ {
        Some(SkillType::AnimalHandling)
    } else if name == "ARCANA"@ {
        Some(SkillType::Arcana)
    } else if name == "ATHLETICS"@ {
        Some(SkillType::Athletics)
    } else if name == "DECEPTION"@ {
        Some(SkillType::Deception)
    } else if name == "HISTORY"@ {
        Some(SkillType::History)
    } else if name == "INSIGHT"@ {
        Some(SkillType::Insight)
    } else if name == "INTIMIDATION"@ {
        Some(SkillType::Intimidation)
    } else if name == "INVESTIGATION"@ {
        Some(SkillType::Investigation)
    } else if name == "MEDICINE"@ {
        Some(SkillType::Medicine)
    } else if name == "NATURE"@ {
        Some(SkillType::Nature)
    } else if name == "PERCEPTION"@ {
        Some(SkillType::Perception)
    } else if name == "PERFORMANCE"@ {
        Some(SkillType::Performance)
    } else if name == "PERSUASION"@ {
        Some(SkillType::Persuasion)
    } else if name == "RELIGION"@ {
        Some(SkillType::Religion)
    } else if name == "SLEIGHT-OF-HAND"@ {
        Some(SkillType::SleightOfHand)
    } else if name == "STEALTH"@ {
        Some(SkillType::Stealth)
    } else if name == "SURVIVAL"@ {
        Some(SkillType::Survival)
    } else {
        None
    }
}

impl SkillType {
    /// The name of the skill in records and requests.
    pub open spec fn spec_name(&self) -> Seq<char> {
        match *self {
            SkillType::Acrobatics => "ACROBATICS"@,
            SkillType::AnimalHandling => "ANIMAL-HANDLING"@,
            SkillType::Arcana => "ARCANA"@,
            SkillType::Athletics => "ATHLETICS"@,
            SkillType::Deception => "DECEPTION"@,
            SkillType::History => "HISTORY"@,
            SkillType::Insight => "INSIGHT"@,
            SkillType::Intimidation => "INTIMIDATION"@,
            SkillType::Investigation => "INVESTIGATION"@,
            SkillType::Medicine => "MEDICINE"@,
            SkillType::Nature => "NATURE"@,
            SkillType::Perception => "PERCEPTION"@,
            SkillType::Performance => "PERFORMANCE"@,
            SkillType::Persuasion => "PERSUASION"@,
            SkillType::Religion => "RELIGION"@,
            SkillType::SleightOfHand => "SLEIGHT-OF-HAND"@,
            SkillType::Stealth => "STEALTH"@,
            SkillType::Survival => "SURVIVAL"@,
        }
    }

    /// The name of the skill in records and requests.
    pub fn name(&self) -> (name: &'static str)
        ensures
            name@ == self.spec_name(),
    {
        match *self {
            SkillType::Acrobatics => "ACROBATICS",
            SkillType::AnimalHandling => "ANIMAL-HANDLING",
            SkillType::Arcana => "ARCANA",
            SkillType::Athletics => "ATHLETICS",
            SkillType::Deception => "DECEPTION",
            SkillType::History => "HISTORY",
            SkillType::Insight => "INSIGHT",
            SkillType::Intimidation => "INTIMIDATION",
            SkillType::Investigation => "INVESTIGATION",
            SkillType::Medicine => "MEDICINE",
            SkillType::Nature => "NATURE",
            SkillType::Perception => "PERCEPTION",
            SkillType::Performance => "PERFORMANCE",
            SkillType::Persuasion => "PERSUASION",
            SkillType::Religion => "RELIGION",
            SkillType::SleightOfHand => "SLEIGHT-OF-HAND",
            SkillType::Stealth => "STEALTH",
            SkillType::Survival => "SURVIVAL",
        }
    }

    /// The skill that a name stands for, if it is the name of one.
    pub fn from_name(name: &str) -> (r: Option<SkillType>)
        ensures
            r == skill_from_name(name@),
    {
        if str_eq(name, "ACROBATICS") {
            Some(SkillType::Acrobatics)
        } else if str_eq(name, "ANIMAL-HANDLING") {
            Some(SkillType::AnimalHandling)
        } else if str_eq(name, "ARCANA") {
            Some(SkillType::Arcana)
        } else if str_eq(name, "ATHLETICS") {
            Some(SkillType::Athletics)
        } else if str_eq(name, "DECEPTION") {
            Some(SkillType::Deception)
        } else if str_eq(name, "HISTORY") {
            Some(SkillType::History)
        } else if str_eq(name, "INSIGHT") {
            Some(SkillType::Insight)
        } else if str_eq(name, "INTIMIDATION") {
            Some(SkillType::Intimidation)
        } else if str_eq(name, "INVESTIGATION") {
            Some(SkillType::Investigation)
        } else if str_eq(name, "MEDICINE") {
            Some(SkillType::Medicine)
        } else if str_eq(name, "NATURE") {
            Some(SkillType::Nature)
        } else if str_eq(name, "PERCEPTION") {
            Some(SkillType::Perception)
        } else if str_eq(name, "PERFORMANCE") {
            Some(SkillType::Performance)
        } else if str_eq(name, "PERSUASION") {
            Some(SkillType::Persuasion)
        } else if str_eq(name, "RELIGION") {
            Some(SkillType::Religion)
        } else if str_eq(name, "SLEIGHT-OF-HAND") {
            Some(SkillType::SleightOfHand)
        } else if str_eq(name, "STEALTH") {
            Some(SkillType::Stealth)
        } else if str_eq(name, "SURVIVAL") {
            Some(SkillType::Survival)
        } else {
            None
        }
    }
}

/// The length of the ending of the name of a check.
pub const CHECK_ENDING: usize = 6;

/// The length of the ending of the name of a saving throw.
pub const SAVE_ENDING: usize = 5;

/// The part of a name that stands before an ending of the given length.
pub open spec fn before_ending(name: Seq<char>, ending: int) -> Seq<char> {
    name.subrange(0, name.len() - ending)
}

/// Whether a name ends in the given ending of the given length.
pub open spec fn has_ending(name: Seq<char>, ending: Seq<char>, length: int) -> bool {
    name.len() >= length && name.subrange(name.len() - length, name.len() as int) == ending
}

/// The roll type that a name stands for. A check is named by the skill or
/// the ability that it tests, and a saving throw by its ability, each with
/// its ending; the other rolls have names of their own.
pub open spec fn roll_type_from_name(name: Seq<char>) -> Option<RollType> {
    if name == "INITIATIVE"@ {
        Some(RollType::Initiative)
    } else if name == "HIT"@ {
        Some(RollType::Hit)
    } else if name == "DAMAGE"@ {
        Some(RollType::Damage)
    } else if has_ending(name, "-CHECK"@, CHECK_ENDING as int) {
        match skill_from_name(before_ending(name, CHECK_ENDING as int)) {
            Some(skill) => Some(RollType::SkillCheck(skill)),
            None => match ability_from_name(before_ending(name, CHECK_ENDING as int)) {
                Some(ability) => Some(RollType::AbilityCheck(ability)),
                None => None,
            },
        }
    } else if has_ending(name, "-SAVE"@, SAVE_ENDING as int) {
        match ability_from_name(before_ending(name, SAVE_ENDING as int)) {
            Some(ability) => Some(RollType::Save(ability)),
            None => None,
        }
    } else {
        None
    }
}

impl RollType {
    /// The name of the roll type in records and requests.
    pub open spec fn spec_name(&self) -> Seq<char> {
        match *self {
            RollType::Initiative => "INITIATIVE"@,
            RollType::SkillCheck(skill) => skill.spec_name() + "-CHECK"@,
            RollType::AbilityCheck(ability) => ability.spec_name() + "-CHECK"@,
            RollType::Save(ability) => ability.spec_name() + "-SAVE"@,
            RollType::Hit => "HIT"@,
            RollType::Damage => "DAMAGE"@,
        }
    }

    /// The name of the roll type in records and requests.
    pub fn name(&self) -> (name: String)
        ensures
            name@ == self.spec_name(),
    {
        match *self {
            RollType::Initiative => "INITIATIVE".to_owned(),
            RollType::SkillCheck(skill) => concat(skill.name(), "-CHECK"),
            RollType::AbilityCheck(ability) => concat(ability.name(), "-CHECK"),
            RollType::Save(ability) => concat(ability.name(), "-SAVE"),
            RollType::Hit => "HIT".to_owned(),
            RollType::Damage => "DAMAGE".to_owned(),
        }
    }

    /// The roll type that a name stands for, if it is the name of one.
    pub fn from_name(name: &str) -> (r: Option<RollType>)
        ensures
            r == roll_type_from_name(name@),
    {
        if str_eq(name, "INITIATIVE") {
            return Some(RollType::Initiative);
        }
        if str_eq(name, "HIT") {
            return Some(RollType::Hit);
        }
        if str_eq(name, "DAMAGE") {
            return Some(RollType::Damage);
        }
        let length = name.unicode_len();
        if length >= CHECK_ENDING && str_eq(
            name.substring_char(length - CHECK_ENDING, length),
            "-CHECK",
        ) {
            let subject = name.substring_char(0, length - CHECK_ENDING);
            match SkillType::from_name(subject) {
                Some(skill) => Some(RollType::SkillCheck(skill)),
                None => match AbilityType::from_name(subject) {
                    Some(ability) => Some(RollType::AbilityCheck(ability)),
                    None => None,
                },
            }
        } else if length >= SAVE_ENDING && str_eq(
            name.substring_char(length - SAVE_ENDING, length),
            "-SAVE",
        ) {
            match AbilityType::from_name(name.substring_char(0, length - SAVE_ENDING)) {
                Some(ability) => Some(RollType::Save(ability)),
                None => None,
            }
        } else {
            None
        }
    }
}

} // verus!
