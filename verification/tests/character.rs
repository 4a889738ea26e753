use onlinerpg::character::{
    character_record_to_shared, default_character_max_hp, CharacterAttributes, CharacterClass,
    CharacterRecord, Gender,
};
use onlinerpg::world::Scalar;

const ALL_CLASSES: &[CharacterClass] = &[
    CharacterClass::Knight,
    CharacterClass::Barbarian,
    CharacterClass::Caveman,
    CharacterClass::Valkyrie,
    CharacterClass::Ranger,
    CharacterClass::Samurai,
    CharacterClass::Monk,
    CharacterClass::Priest,
    CharacterClass::Archaeologist,
    CharacterClass::Healer,
    CharacterClass::Rogue,
    CharacterClass::Wizard,
    CharacterClass::Tourist,
    CharacterClass::Merchant,
    CharacterClass::Guard,
];

#[test]
fn character_class_str_roundtrip() {
    for class in ALL_CLASSES {
        let s = class.as_str();
        let back: CharacterClass = s.parse().expect("parse should accept as_str output");
        assert_eq!(&back, class, "roundtrip failed for {s}");
    }
}

#[test]
fn character_class_from_str_rejects_unknown() {
    assert!("".parse::<CharacterClass>().is_err());
    assert!("nonexistent".parse::<CharacterClass>().is_err());
    assert!("Knight".parse::<CharacterClass>().is_err());
}

#[test]
fn only_operator_classes_are_unselectable() {
    for class in ALL_CLASSES {
        let expected = !matches!(class, CharacterClass::Merchant | CharacterClass::Guard);
        assert_eq!(
            class.is_player_selectable(),
            expected,
            "{} selectability",
            class.as_str()
        );
    }
}

#[test]
fn class_names_are_distinct() {
    for a in ALL_CLASSES {
        for b in ALL_CLASSES {
            assert_eq!(a.as_str() == b.as_str(), a == b);
        }
    }
    assert_eq!(CharacterClass::from_name("archaeologist"), Ok(CharacterClass::Archaeologist));
}

#[test]
fn clients_see_part_of_a_record() {
    let attributes = CharacterAttributes {
        strength: 11,
        dexterity: 12,
        con: 13,
        intelligence: 14,
        wisdom: 15,
        charisma: 7,
    };
    let shared = character_record_to_shared(CharacterRecord {
        id: 5,
        name: "Ada".to_string(),
        created_at: 99,
        level: 3,
        xp: 1234,
        max_hp: 21,
        attributes,
        class: CharacterClass::Healer,
        gender: Gender::Female,
        admin_role: 2,
        last_x: Scalar::from_bits(1),
        last_y: Scalar::from_bits(2),
        last_z: Scalar::from_bits(3),
        last_rotation: Scalar::from_bits(4),
        health: Some(9),
        floor_level: -1,
        gold: 50,
    });
    assert_eq!(shared.id, 5);
    assert_eq!(shared.name, "Ada");
    assert_eq!(shared.created_at, 99);
    assert_eq!(shared.level, 3);
    assert_eq!(shared.xp, 1234);
    assert_eq!(shared.max_hp, 21);
    assert_eq!(shared.attributes, attributes);
    assert_eq!(shared.class, CharacterClass::Healer);
    assert_eq!(shared.gender, Gender::Female);
}

#[test]
fn unresolved_hit_points_fall_back() {
    assert_eq!(default_character_max_hp(Some(17)), 17);
    assert_eq!(default_character_max_hp(Some(0)), 0);
    assert_eq!(default_character_max_hp(None), 13);
}
