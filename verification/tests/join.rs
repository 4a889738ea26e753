use onlinerpg::address::ClientIp;
use onlinerpg::character::{CharacterAttributes, CharacterClass, CharacterRecord, Gender};
use onlinerpg::connection::ConnectionState;
use onlinerpg::entity::{ClientKind, Player, PlayerId};
use onlinerpg::join::{
    character_loaded, dungeon_rehydrated, player_added, player_created, player_registered,
    CarriedInventory, Entering, JoinFacts, Joined, RegistrationStep, SpawnPoint,
};
use onlinerpg::messages::ServerMessage;
use onlinerpg::payload::PlayerInventory;
use onlinerpg::session::Action;
use onlinerpg::world::{GameDateTime, Position, Scalar};

fn number(value: f32) -> Scalar {
    Scalar::from_bits(value.to_bits())
}

fn at(x: f32) -> Position {
    Position {
        x: number(x),
        y: number(0.5),
        z: number(-2.0),
    }
}

fn spawn() -> SpawnPoint {
    SpawnPoint {
        position: at(100.0),
        rotation: number(1.5),
    }
}

fn record() -> CharacterRecord {
    CharacterRecord {
        id: 12,
        name: "Ayla".to_string(),
        created_at: 1,
        level: 4,
        xp: 1234,
        max_hp: 30,
        attributes: CharacterAttributes {
            strength: 1,
            dexterity: 2,
            con: 3,
            intelligence: 4,
            wisdom: 5,
            charisma: 6,
        },
        class: CharacterClass::Valkyrie,
        gender: Gender::Female,
        admin_role: 1,
        last_x: number(7.0),
        last_y: number(0.5),
        last_z: number(-2.0),
        last_rotation: number(0.25),
        health: Some(17),
        floor_level: 0,
        gold: 99,
    }
}

fn player() -> Player {
    Player {
        id: PlayerId(5),
        name: "Ayla".to_string(),
        position: at(7.0),
        rotation: number(0.25),
        level: 4,
        health: 30,
        max_health: 30,
        class: CharacterClass::Valkyrie,
        gender: Gender::Female,
        is_official_npc: false,
        torch_on: false,
        floor_level: 0,
        object_type: None,
        object_id: None,
        last_combat_at: 0,
        client_kind: ClientKind::Web,
    }
}

fn state() -> ConnectionState {
    let mut state = ConnectionState::new(ClientIp::V4([127, 0, 0, 1]));
    state.client_kind = Some(ClientKind::Cli);
    state.account_name = Some("ann".to_string());
    state
}

fn facts() -> JoinFacts {
    JoinFacts {
        inventory: None,
        datetime: GameDateTime {
            year: 1,
            month: 2,
            day: 3,
            hour: 23,
            minute: 5,
        },
        is_night: true,
        zones: vec![],
        guard: -3,
        notice: None,
    }
}

fn same(a: Position, b: Position) -> bool {
    a.x.bits == b.x.bits && a.y.bits == b.y.bits && a.z.bits == b.z.bits
}

fn kinds(replies: &[ServerMessage]) -> Vec<&'static str> {
    replies
        .iter()
        .map(|reply| match reply {
            ServerMessage::JoinSuccess { .. } => "join",
            ServerMessage::GameTimeSync { .. } => "time",
            ServerMessage::NoSpawnZones { .. } => "zones",
            ServerMessage::InventoryState { .. } => "inventory",
            ServerMessage::GuardUpdated { .. } => "guard",
            ServerMessage::GoldUpdate { .. } => "gold",
            ServerMessage::ServerNotice { .. } => "notice",
            ServerMessage::SystemMessage { .. } => "snapshot",
            _ => "?",
        })
        .collect()
}

fn registered(action: Action) -> (Entering, Vec<RegistrationStep>) {
    match action {
        Action::Register { entering, steps } => (entering, steps),
        other => panic!("{other:?}"),
    }
}

#[test]
fn a_loaded_character_replaces_its_session() {
    let mut state = state();
    match character_loaded(&mut state, 12, Ok(record())) {
        Action::ReplaceSession {
            character_id,
            record,
            player,
        } => {
            assert_eq!(character_id, 12);
            assert_eq!(record.name, "Ayla");
            assert_eq!(player.name, "Ayla");
            assert_eq!(player.level, 4);
            assert_eq!(player.max_hp, 30);
            assert!(same(player.position, at(7.0)));
            assert_eq!(player.rotation.bits, 0.25f32.to_bits());
            assert_eq!(player.client_kind, ClientKind::Cli);
            assert!(!player.is_official_npc);
        }
        other => panic!("{other:?}"),
    }
    assert!(!state.is_admin);
}

#[test]
fn admin_rights_take_an_eligible_account_and_a_role() {
    for (eligible, role, admin) in [
        (true, 1, true),
        (true, 0, false),
        (true, -1, false),
        (false, 1, false),
    ] {
        let mut state = state();
        state.admin_eligible = eligible;
        state.is_admin = !admin;
        let mut record = record();
        record.admin_role = role;
        character_loaded(&mut state, 12, Ok(record));
        assert_eq!(state.is_admin, admin);
    }
}

#[test]
fn a_character_that_cannot_be_loaded_is_refused() {
    let mut state = state();
    state.admin_eligible = true;
    let action = character_loaded(&mut state, 12, Err("Character not found".to_string()));
    assert!(matches!(
        &action,
        Action::Reply(replies) if matches!(
            replies.as_slice(),
            [ServerMessage::CharacterError { message }] if message == "Character not found"
        )
    ));
    assert!(!state.is_admin);
}

#[test]
fn saved_health_is_capped() {
    for (saved, expected) in [(Some(17), 17), (Some(31), 30), (Some(0), 0), (None, 25)] {
        let mut record = record();
        record.health = saved;
        let mut created = player();
        created.health = 25;
        let (entering, _) = registered(player_created(12, record, created, 0, spawn()));
        assert_eq!(entering.player.health, expected);
    }
}

#[test]
fn a_floor_out_of_range_leads_to_the_world_spawn() {
    let mut record = record();
    record.floor_level = 90;
    let (entering, _) = registered(player_created(12, record, player(), 0, spawn()));
    assert!(same(entering.player.position, at(100.0)));
    assert_eq!(entering.player.rotation.bits, 1.5f32.to_bits());
    assert_eq!(entering.player.floor_level, 0);
}

#[test]
fn a_player_in_a_dungeon_has_it_primed_first() {
    for (ok, x, floor) in [(true, 7.0, -2), (false, 100.0, 0)] {
        let mut record = record();
        record.floor_level = -2;
        let entering = match player_created(12, record, player(), -2, spawn()) {
            Action::RehydrateDungeon { entering } => entering,
            other => panic!("{other:?}"),
        };
        assert_eq!(entering.player.floor_level, -2);
        assert!(same(entering.player.position, at(7.0)));
        let (entering, _) = registered(dungeon_rehydrated(entering, ok, spawn()));
        assert_eq!(entering.player.floor_level, floor);
        assert!(same(entering.player.position, at(x)));
    }
}

#[test]
fn registration_goes_in_order() {
    let (_, steps) = registered(player_created(12, record(), player(), 0, spawn()));
    assert!(matches!(
        steps.as_slice(),
        [
            RegistrationStep::OpenDirectChannel {
                player: PlayerId(5)
            },
            RegistrationStep::RegisterCharacter {
                player: PlayerId(5),
                character_id: 12,
                xp: 1234,
                gold: 99,
                ..
            },
            RegistrationStep::LoadBlockedNames {
                player: PlayerId(5),
                character_id: 12
            },
            RegistrationStep::LoadChestOpens { character_id: 12 },
            RegistrationStep::LoadInventory {
                player: PlayerId(5),
                character_id: 12
            },
        ]
    ));
}

#[test]
fn join_replies_tell_what_there_is() {
    let entering = || Entering {
        character_id: 12,
        record: record(),
        player: player(),
    };
    let mut state = state();
    state.is_admin = true;
    let replies = match player_registered(&state, entering(), facts()) {
        Action::AddPlayer { replies, player, .. } => {
            assert!(!player.torch_on);
            replies
        }
        other => panic!("{other:?}"),
    };
    assert_eq!(kinds(&replies), ["join", "time", "zones", "guard", "gold"]);
    assert!(matches!(
        &replies[0],
        ServerMessage::JoinSuccess { is_admin: true, player } if player.id == PlayerId(5)
    ));
    assert!(matches!(
        &replies[1],
        ServerMessage::GameTimeSync { is_night: true, datetime } if datetime.hour == 23
    ));
    assert!(matches!(replies[3], ServerMessage::GuardUpdated { guard: -3 }));
    assert!(matches!(replies[4], ServerMessage::GoldUpdate { gold: 99 }));

    let mut more = facts();
    more.inventory = Some(CarriedInventory {
        inventory: PlayerInventory {
            encoding: vec![0x90],
        },
        torch_lit: true,
    });
    more.notice = Some("restart soon".to_string());
    match player_registered(&state, entering(), more) {
        Action::AddPlayer {
            player,
            joined,
            replies,
        } => {
            assert!(player.torch_on);
            assert_eq!(joined.player_id, PlayerId(5));
            assert_eq!(joined.character_name, "Ayla");
            assert_eq!(joined.floor_level, 0);
            assert_eq!(
                kinds(&replies),
                ["join", "time", "zones", "inventory", "guard", "gold", "notice"]
            );
            assert!(matches!(
                &replies[0],
                ServerMessage::JoinSuccess { player, .. } if player.torch_on
            ));
            assert!(matches!(
                &replies[6],
                ServerMessage::ServerNotice { message: Some(text) } if text == "restart soon"
            ));
        }
        other => panic!("{other:?}"),
    }
}

#[test]
fn a_player_in_the_world_is_in_game() {
    for (floor, snapshot) in [(0, true), (-3, false)] {
        let mut state = state();
        let joined = Joined {
            player_id: PlayerId(5),
            character_name: "Ayla".to_string(),
            floor_level: floor,
            position: at(7.0),
        };
        let told = vec![ServerMessage::GoldUpdate { gold: 1 }];
        let world = snapshot.then_some(ServerMessage::SystemMessage {
            message: "world".to_string(),
        });
        match player_added(&mut state, joined, told, world) {
            Action::Entered {
                floor_entry,
                replies,
            } => {
                if snapshot {
                    assert_eq!(kinds(&replies), ["gold", "snapshot"]);
                    assert!(floor_entry.is_none());
                } else {
                    assert_eq!(kinds(&replies), ["gold"]);
                    let entry = floor_entry.unwrap();
                    assert_eq!(entry.player, PlayerId(5));
                    assert_eq!((entry.from_floor, entry.to_floor), (0, -3));
                    assert!(same(entry.position, at(7.0)));
                }
            }
            other => panic!("{other:?}"),
        }
        assert_eq!(state.player_id, Some(PlayerId(5)));
        assert_eq!(state.character_name.as_deref(), Some("Ayla"));
    }
}
