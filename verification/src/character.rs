//! Playable characters: class, gender, rolled attributes, and the two shapes a
//! character has, the stored record and the summary sent to clients.

use crate::text::same_text;
use crate::world::Scalar;
use vstd::prelude::*;

verus! {

/// Hit points of a new character whose starting value cannot be resolved.
pub const FALLBACK_DEFAULT_MAX_HP: u32 = 13;

/// What a character does for a living.
#[derive(Debug, Clone, Copy, PartialEq, Eq, Structural)]
pub enum CharacterClass {
    Knight,
    Barbarian,
    Caveman,
    Valkyrie,
    Ranger,
    Samurai,
    Monk,
    Priest,
    Archaeologist,
    Healer,
    Rogue,
    Wizard,
    Tourist,
    Merchant,
    Guard,
}

/// The text names no class.
#[derive(Debug, Clone, Copy, PartialEq, Eq, Structural)]
pub struct UnknownClass;

impl CharacterClass {
    /// The name of the class in lower case.
    pub open spec fn name(self) -> Seq<char> {
        match self {
            CharacterClass::Knight => "knight"@,
            CharacterClass::Barbarian => "barbarian"@,
            CharacterClass::Caveman => "caveman"@,
            CharacterClass::Valkyrie => "valkyrie"@,
            CharacterClass::Ranger => "ranger"@,
            CharacterClass::Samurai => "samurai"@,
            CharacterClass::Monk => "monk"@,
            CharacterClass::Priest => "priest"@,
            CharacterClass::Archaeologist => "archaeologist"@,
            CharacterClass::Healer => "healer"@,
            CharacterClass::Rogue => "rogue"@,
            CharacterClass::Wizard => "wizard"@,
            CharacterClass::Tourist => "tourist"@,
            CharacterClass::Merchant => "merchant"@,
            CharacterClass::Guard => "guard"@,
        }
    }

    /// Merchant and Guard are reserved for operator-run characters.
    pub open spec fn selectable(self) -> bool {
        self != CharacterClass::Merchant && self != CharacterClass::Guard
    }

    /// The name of the class.
    pub fn as_str(&self) -> (res: &'static str)
        ensures
            res@ == self.name(),
    {
        match *self {
            CharacterClass::Knight => "knight",
            CharacterClass::Barbarian => "barbarian",
            CharacterClass::Caveman => "caveman",
            CharacterClass::Valkyrie => "valkyrie",
            CharacterClass::Ranger => "ranger",
            CharacterClass::Samurai => "samurai",
            CharacterClass::Monk => "monk",
            CharacterClass::Priest => "priest",
            CharacterClass::Archaeologist => "archaeologist",
            CharacterClass::Healer => "healer",
            CharacterClass::Rogue => "rogue",
            CharacterClass::Wizard => "wizard",
            CharacterClass::Tourist => "tourist",
            CharacterClass::Merchant => "merchant",
            CharacterClass::Guard => "guard",
        }
    }

    /// The class with the given name.
    pub fn from_name(s: &str) -> (res: Result<CharacterClass, UnknownClass>)
        ensures
            forall|class: CharacterClass| s@ == #[trigger] class.name() <==> res == Ok::<
                CharacterClass,
                UnknownClass,
            >(class),
    {
        let res = if same_text(s, "knight") {
            Ok(CharacterClass::Knight)
        } else if same_text(s, "barbarian") {
            Ok(CharacterClass::Barbarian)
        } else if same_text(s, "caveman") {
            Ok(CharacterClass::Caveman)
        } else if same_text(s, "valkyrie") {
            Ok(CharacterClass::Valkyrie)
        } else if same_text(s, "ranger") {
            Ok(CharacterClass::Ranger)
        } else if same_text(s, "samurai") {
            Ok(CharacterClass::Samurai)
        } else if same_text(s, "monk") {
            Ok(CharacterClass::Monk)
        } else if same_text(s, "priest") {
            Ok(CharacterClass::Priest)
        } else if same_text(s, "archaeologist") {
            Ok(CharacterClass::Archaeologist)
        } else if same_text(s, "healer") {
            Ok(CharacterClass::Healer)
        } else if same_text(s, "rogue") {
            Ok(CharacterClass::Rogue)
        } else if same_text(s, "wizard") {
            Ok(CharacterClass::Wizard)
        } else if same_text(s, "tourist") {
            Ok(CharacterClass::Tourist)
        } else if same_text(s, "merchant") {
            Ok(CharacterClass::Merchant)
        } else if same_text(s, "guard") {
            Ok(CharacterClass::Guard)
        } else {
            Err(UnknownClass)
        };
        proof {
            if res is Ok {
                let found = res->Ok_0;
                assert(s@ == found.name());
                assert forall|class: CharacterClass| s@ == #[trigger] class.name() implies class
                    == found by {
                    law_class_names_are_distinct(class, found);
                }
            }
        }
        res
    }

    /// Whether players may pick this class for themselves.
    pub fn is_player_selectable(&self) -> (res: bool)
        ensures
            res == self.selectable(),
    {
        match *self {
            CharacterClass::Merchant => false,
            CharacterClass::Guard => false,
            _ => true,
        }
    }
}

impl std::str::FromStr for CharacterClass {
    type Err = UnknownClass;

    fn from_str(s: &str) -> (res: Result<CharacterClass, UnknownClass>)
        ensures
            forall|class: CharacterClass| s@ == #[trigger] class.name() <==> res == Ok::<
                CharacterClass,
                UnknownClass,
            >(class),
    {
        CharacterClass::from_name(s)
    }
}

/// A class name stands for one class only, so reading back the name of a class
/// gives that class.
pub proof fn law_class_names_are_distinct(a: CharacterClass, b: CharacterClass)
    ensures
        a.name() == b.name() ==> a == b,
{
    reveal_strlit("knight");
    reveal_strlit("barbarian");
    reveal_strlit("caveman");
    reveal_strlit("valkyrie");
    reveal_strlit("ranger");
    reveal_strlit("samurai");
    reveal_strlit("monk");
    reveal_strlit("priest");
    reveal_strlit("archaeologist");
    reveal_strlit("healer");
    reveal_strlit("rogue");
    reveal_strlit("wizard");
    reveal_strlit("tourist");
    reveal_strlit("merchant");
    reveal_strlit("guard");
    assert(a.name().len() == b.name().len() && a.name()[0] == b.name()[0] ==> a == b);
}

#[derive(Debug, Clone, Copy, PartialEq, Eq, Structural)]
pub enum Gender {
    Male,
    Female,
}

/// The six rolled attributes of a character.
#[derive(Debug, Clone, Copy, PartialEq, Eq, Structural)]
pub struct CharacterAttributes {
    pub strength: i32,
    pub dexterity: i32,
    pub con: i32,
    pub intelligence: i32,
    pub wisdom: i32,
    pub charisma: i32,
}

/// A character as clients see it in their character list.
#[derive(Debug, Clone)]
pub struct Character {
    pub id: i64,
    pub name: String,
    pub created_at: i64,
    pub level: u32,
    pub xp: u64,
    pub max_hp: u32,
    pub attributes: CharacterAttributes,
    pub class: CharacterClass,
    pub gender: Gender,
}

/// A character as it is stored.
#[derive(Debug)]
pub struct CharacterRecord {
    pub id: i64,
    pub name: String,
    pub created_at: i64,
    pub level: u32,
    pub xp: u64,
    pub max_hp: u32,
    pub attributes: CharacterAttributes,
    pub class: CharacterClass,
    pub gender: Gender,
    pub admin_role: i32,
    pub last_x: Scalar,
    pub last_y: Scalar,
    pub last_z: Scalar,
    pub last_rotation: Scalar,
    /// Health at the last save; `None` when none was saved yet.
    pub health: Option<u32>,
    pub floor_level: i8,
    pub gold: i64,
}

/// The part of a record that is sent to clients.
pub open spec fn shared_part(record: CharacterRecord) -> Character {
    Character {
        id: record.id,
        name: record.name,
        created_at: record.created_at,
        level: record.level,
        xp: record.xp,
        max_hp: record.max_hp,
        attributes: record.attributes,
        class: record.class,
        gender: record.gender,
    }
}

/// Keeps of a stored character what clients may see.
pub fn character_record_to_shared(record: CharacterRecord) -> (res: Character)
    ensures
        res == shared_part(record),
{
    Character {
        id: record.id,
        name: record.name,
        created_at: record.created_at,
        level: record.level,
        xp: record.xp,
        max_hp: record.max_hp,
        attributes: record.attributes,
        class: record.class,
        gender: record.gender,
    }
}

/// What the level-one hit point rule is asked about.
#[derive(Debug, Clone, Copy, PartialEq, Eq, Structural)]
pub struct HitPointQuery {
    pub class: CharacterClass,
    pub con: i32,
}

/// Hit points of a new character, given what the level-one rule said: its value,
/// or the fallback when the rule could not resolve one.
pub open spec fn starting_hp(resolved: Option<u32>) -> u32 {
    match resolved {
        Some(value) => value,
        None => FALLBACK_DEFAULT_MAX_HP,
    }
}

/// Hit points of a new character, given what the level-one rule said.
pub fn default_character_max_hp(resolved: Option<u32>) -> (res: u32)
    ensures
        res == starting_hp(resolved),
{
    match resolved {
        Some(value) => value,
        None => FALLBACK_DEFAULT_MAX_HP,
    }
}

} // verus!
