use onlinerpg::address::ClientIp;
use onlinerpg::connection::ConnectionState;
use onlinerpg::entity::{Monster, PlayerId};
use onlinerpg::game::{
    door_located, dungeon_door_toggled, dungeon_doors_listed, house_door_toggled, monster_spawned,
    play, spawn_validated, teleport_located, DungeonDoor, GameCommand, HouseDoor, Placement,
    SpawnRequest,
};
use onlinerpg::messages::{ClientMessage, DealKind, ServerMessage};
use onlinerpg::payload::{EquipSlot, MonsterState, WallDirection};
use onlinerpg::session::Action;
use onlinerpg::world::{Position, Scalar};

const ME: PlayerId = PlayerId(3);
const OTHER: PlayerId = PlayerId(8);

fn number(value: f32) -> Scalar {
    Scalar::from_bits(value.to_bits())
}

fn at(x: f32) -> Position {
    Position {
        x: number(x),
        y: number(0.5),
        z: number(-2.0),
    }
}

fn playing() -> ConnectionState {
    let mut state = ConnectionState::new(ClientIp::V4([10, 0, 0, 9]));
    state.account_name = Some("ann".to_string());
    state.player_id = Some(ME);
    state
}

fn command(msg: ClientMessage) -> GameCommand {
    match play(&playing(), msg) {
        Action::Game(command) => command,
        other => panic!("{other:?}"),
    }
}

fn text(s: &str) -> String {
    s.to_string()
}

fn house_door() -> HouseDoor {
    HouseDoor {
        house_id: text("h1"),
        room_index: 2,
        wall_dir: WallDirection {
            name: text("north"),
        },
        segment_index: 4,
    }
}

fn dungeon_door() -> DungeonDoor {
    DungeonDoor {
        entrance_id: text("crypt"),
        depth: 2,
        door_id: 9,
    }
}

fn monster() -> Monster {
    Monster {
        id: text("m1"),
        monster_type: text("slime"),
        position: at(1.0),
        rotation: number(0.0),
        state: MonsterState { name: text("idle") },
        owner_id: Some(ME),
        health: 5,
        max_health: 5,
        floor_level: 0,
        level_override: None,
        aggressive: false,
        last_attack_at: 0,
        last_move_at: 0,
        move_budget: number(0.0),
    }
}

#[test]
fn without_a_player_nothing_reaches_the_game() {
    let mut state = playing();
    state.player_id = None;
    for msg in [
        ClientMessage::RequestRespawn,
        ClientMessage::PickupStarted,
        ClientMessage::ChatMessage {
            message: text("hello"),
        },
        ClientMessage::DebugSetTime { hour: 1, minute: 2 },
        ClientMessage::OpenTrade {
            target_player_id: OTHER,
        },
    ] {
        assert!(matches!(play(&state, msg), Action::Done));
    }
}

#[test]
fn moves_carry_the_rights_of_the_connection() {
    let mut state = playing();
    state.is_official_npc = true;
    let msg = ClientMessage::PlayerMove {
        position: at(1.0),
        rotation: number(0.5),
        floor_level: -1,
        append: true,
    };
    match play(&state, msg) {
        Action::Game(GameCommand::UpdatePlayerPosition {
            player,
            movement,
            is_admin,
            is_official_npc,
        }) => {
            assert_eq!(player, ME);
            assert_eq!(movement.position.x.bits, 1.0f32.to_bits());
            assert_eq!(movement.rotation.bits, 0.5f32.to_bits());
            assert_eq!((movement.floor_level, movement.append), (-1, true));
            assert!(!is_admin);
            assert!(is_official_npc);
        }
        other => panic!("{other:?}"),
    }
    assert!(matches!(
        command(ClientMessage::PlayerFloorChanged { floor_level: 2 }),
        GameCommand::UpdatePlayerFloor {
            player: ME,
            floor_level: 2
        }
    ));
}

#[test]
fn fighting_goes_to_the_game() {
    assert!(matches!(
        command(ClientMessage::PlayerAttack { monster_id: text("m1") }),
        GameCommand::PlayerAttack { player: ME, monster_id } if monster_id == "m1"
    ));
    assert!(matches!(
        command(ClientMessage::MonsterAttack {
            monster_id: text("m1"),
            target_player_id: OTHER
        }),
        GameCommand::MonsterAttack { player: ME, monster_id, target_player_id: OTHER }
            if monster_id == "m1"
    ));
    assert!(matches!(
        command(ClientMessage::MonsterMove {
            monster_id: text("m1"),
            position: at(1.0),
            rotation: number(0.5),
            state: MonsterState { name: text("chase") },
            target_position: at(2.0),
        }),
        GameCommand::UpdateMonsterPosition { player: ME, monster_id, position, state, target_position, .. }
            if monster_id == "m1" && state.name == "chase"
                && position.x.bits == 1.0f32.to_bits()
                && target_position.x.bits == 2.0f32.to_bits()
    ));
    assert!(matches!(
        command(ClientMessage::RequestRespawn),
        GameCommand::Respawn { player: ME }
    ));
}

#[test]
fn dungeon_requests_go_to_the_game() {
    assert!(matches!(
        command(ClientMessage::OpenDungeonChest { entrance_id: text("crypt") }),
        GameCommand::OpenDungeonChest { player: ME, entrance_id } if entrance_id == "crypt"
    ));
    assert!(matches!(
        command(ClientMessage::BreakDungeonProp {
            entrance_id: text("crypt"),
            depth: 1,
            prop_id: 7
        }),
        GameCommand::BreakDungeonProp { player: ME, depth: 1, prop_id: 7, .. }
    ));
    assert!(matches!(
        command(ClientMessage::OpenDungeonProp {
            entrance_id: text("crypt"),
            depth: 1,
            prop_id: 7
        }),
        GameCommand::OpenDungeonProp { player: ME, depth: 1, prop_id: 7, .. }
    ));
    let toggle = ClientMessage::ToggleDungeonDoor {
        entrance_id: text("crypt"),
        depth: 2,
        door_id: 9,
    };
    assert!(matches!(
        play(&playing(), toggle),
        Action::ToggleDungeonDoor { player: ME, door }
            if door.entrance_id == "crypt" && door.depth == 2 && door.door_id == 9
    ));
    let doors = ClientMessage::RequestDungeonDoors {
        entrance_id: text("crypt"),
    };
    assert!(matches!(
        play(&playing(), doors),
        Action::ListDungeonDoors { player: ME, entrance_id } if entrance_id == "crypt"
    ));
}

#[test]
fn debug_messages_go_to_the_game() {
    assert!(matches!(
        play(&playing(), ClientMessage::DebugTeleport { position: at(4.0) }),
        Action::LocateForTeleport { player: ME, position }
            if position.x.bits == 4.0f32.to_bits()
    ));
    assert!(matches!(
        command(ClientMessage::DebugDropItem { item_def_id: text("sword") }),
        GameCommand::DebugDropItem { player: ME, item_def_id } if item_def_id == "sword"
    ));
    assert!(matches!(
        command(ClientMessage::DebugSetTime { hour: 5, minute: 6 }),
        GameCommand::DebugSetTime { hour: 5, minute: 6 }
    ));
    assert!(matches!(
        command(ClientMessage::DebugResetDungeonProps { entrance_id: text("crypt") }),
        GameCommand::DebugResetDungeonProps { entrance_id } if entrance_id == "crypt"
    ));
}

#[test]
fn interaction_starts_and_stops() {
    assert!(matches!(
        command(ClientMessage::InteractObject { object_type: text("bench"), object_id: 6 }),
        GameCommand::SetInteraction { player: ME, object_type: Some(kind), object_id: Some(6) }
            if kind == "bench"
    ));
    assert!(matches!(
        command(ClientMessage::StopInteraction),
        GameCommand::SetInteraction {
            player: ME,
            object_type: None,
            object_id: None
        }
    ));
    assert!(matches!(
        command(ClientMessage::TorchToggle { enabled: true }),
        GameCommand::SetTorch {
            player: ME,
            enabled: true
        }
    ));
    assert!(matches!(
        command(ClientMessage::ChatMessage { message: text("hello") }),
        GameCommand::SendChatMessage { player: ME, message } if message == "hello"
    ));
}

#[test]
fn items_go_to_the_game() {
    assert!(matches!(
        command(ClientMessage::EquipItem { instance_id: 1 }),
        GameCommand::EquipItem { player: ME, instance_id: 1 }
    ));
    assert!(matches!(
        command(ClientMessage::UnequipItem { slot: EquipSlot { name: text("head") } }),
        GameCommand::UnequipItem { player: ME, slot } if slot.name == "head"
    ));
    assert!(matches!(
        command(ClientMessage::DropItem { instance_id: 2 }),
        GameCommand::DropItem { player: ME, instance_id: 2 }
    ));
    assert!(matches!(
        command(ClientMessage::PickupStarted),
        GameCommand::PickupAnimation { player: ME }
    ));
    assert!(matches!(
        command(ClientMessage::PickupItem { instance_id: 3 }),
        GameCommand::PickupItem { player: ME, instance_id: 3 }
    ));
    assert!(matches!(
        command(ClientMessage::UseItem { instance_id: 4 }),
        GameCommand::UseItem { player: ME, instance_id: 4 }
    ));
}

#[test]
fn trade_goes_to_the_game() {
    let merchant_player_id = OTHER;
    assert!(matches!(
        command(ClientMessage::OpenShop { merchant_player_id }),
        GameCommand::OpenShop { player: ME, merchant_player_id: OTHER, requested: true }
    ));
    assert!(matches!(
        command(ClientMessage::CloseShop { merchant_player_id }),
        GameCommand::CloseShop { player: ME, merchant_player_id: OTHER }
    ));
    assert!(matches!(
        command(ClientMessage::BuyItem { merchant_player_id, item_def_id: text("bread") }),
        GameCommand::BuyItem { player: ME, merchant_player_id: OTHER, item_def_id }
            if item_def_id == "bread"
    ));
    assert!(matches!(
        command(ClientMessage::SellItem { merchant_player_id, instance_id: 5 }),
        GameCommand::SellItem { player: ME, merchant_player_id: OTHER, instance_id: 5 }
    ));
    assert!(matches!(
        command(ClientMessage::BuybackItem { merchant_player_id, entry_id: 6 }),
        GameCommand::BuybackItem { player: ME, merchant_player_id: OTHER, entry_id: 6 }
    ));
    assert!(matches!(
        command(ClientMessage::OfferDeal {
            target_player_id: OTHER,
            item_def_id: text("bread"),
            kind: DealKind::Sell,
            modifier_pct: -10,
            reason: text("friend"),
        }),
        GameCommand::OfferDeal {
            player: ME,
            target_player_id: OTHER,
            kind: DealKind::Sell,
            modifier_pct: -10,
            item_def_id,
            reason,
        } if item_def_id == "bread" && reason == "friend"
    ));
    assert!(matches!(
        command(ClientMessage::OpenTrade { target_player_id: OTHER }),
        GameCommand::OpenTrade { player: ME, target_player_id: OTHER }
    ));
}

#[test]
fn housing_broadcasts_of_clients_are_ignored() {
    for msg in [
        ClientMessage::RemoveHouse {
            house_id: text("h1"),
        },
        ClientMessage::Heartbeat,
    ] {
        assert!(matches!(play(&playing(), msg), Action::Done));
    }
}

#[test]
fn a_valid_spawn_is_created_and_assigned() {
    let request = || SpawnRequest {
        monster_type: text("slime"),
        position: at(1.0),
        rotation: number(0.5),
    };
    let asked = ClientMessage::RequestSpawnMonster {
        monster_type: text("slime"),
        position: at(1.0),
        rotation: number(0.5),
    };
    assert!(matches!(
        play(&playing(), asked),
        Action::ValidateSpawn { player: ME, request } if request.monster_type == "slime"
    ));
    assert!(matches!(spawn_validated(ME, request(), false), Action::Done));
    match spawn_validated(ME, request(), true) {
        Action::SpawnMonster { player: ME, spawn } => {
            assert_eq!(spawn.monster_type, "slime");
            assert_eq!(spawn.rotation.bits, 0.5f32.to_bits());
            assert_eq!(spawn.owner_id, Some(ME));
            assert_eq!(spawn.floor_level, 0);
            assert_eq!(spawn.level_override, None);
            assert!(!spawn.aggressive);
        }
        other => panic!("{other:?}"),
    }
    assert!(matches!(monster_spawned(ME, None), Action::Done));
    assert!(matches!(
        monster_spawned(ME, Some(monster())),
        Action::Game(GameCommand::SendDirect {
            player: ME,
            message: ServerMessage::MonsterAssigned { monster },
        }) if monster.id == "m1"
    ));
}

#[test]
fn dungeon_doors_are_published() {
    assert!(matches!(
        dungeon_door_toggled(ME, dungeon_door(), None),
        Action::Done
    ));
    assert!(matches!(
        dungeon_door_toggled(ME, dungeon_door(), Some(true)),
        Action::Game(GameCommand::PublishDungeonDoor { player: ME, door, is_open: true })
            if door.door_id == 9
    ));
    assert!(matches!(
        dungeon_doors_listed(ME, text("crypt"), vec![(1, 2), (3, 4)]),
        Action::Game(GameCommand::SendDirect {
            player: ME,
            message: ServerMessage::DungeonDoorsState { entrance_id, doors },
        }) if entrance_id == "crypt" && doors == [(1, 2), (3, 4)]
    ));
}

#[test]
fn a_teleport_keeps_the_facing() {
    let here = Placement {
        position: at(0.0),
        rotation: number(2.5),
        floor_level: 0,
    };
    for (current, rotation) in [(Some(here), 2.5f32), (None, 0.0)] {
        match teleport_located(ME, at(9.0), current, -2) {
            Action::Game(GameCommand::Teleport {
                player: ME,
                position,
                rotation: facing,
                floor_level: -2,
            }) => {
                assert_eq!(position.x.bits, 9.0f32.to_bits());
                assert_eq!(facing.bits, rotation.to_bits());
            }
            other => panic!("{other:?}"),
        }
    }
}

#[test]
fn house_doors_are_told_to_whoever_is_near() {
    let toggle = ClientMessage::ToggleDoor {
        house_id: text("h1"),
        room_index: 2,
        wall_dir: WallDirection {
            name: text("north"),
        },
        segment_index: 4,
    };
    assert!(matches!(
        play(&playing(), toggle),
        Action::ToggleHouseDoor { player: ME, door } if door.house_id == "h1" && door.room_index == 2
    ));
    assert!(matches!(
        house_door_toggled(ME, house_door(), None),
        Action::Done
    ));
    assert!(matches!(
        house_door_toggled(ME, house_door(), Some(false)),
        Action::LocateForDoor { player: ME, is_open: false, .. }
    ));
    assert!(matches!(door_located(house_door(), true, None), Action::Done));
    let here = Placement {
        position: at(6.0),
        rotation: number(0.0),
        floor_level: 1,
    };
    match door_located(house_door(), true, Some(here)) {
        Action::Game(GameCommand::SendNearby {
            position,
            floor_level: 1,
            radius,
            message:
                ServerMessage::DoorToggled {
                    house_id,
                    room_index: 2,
                    wall_dir,
                    segment_index: 4,
                    is_open: true,
                },
        }) => {
            assert_eq!(position.x.bits, 6.0f32.to_bits());
            assert_eq!(radius.bits, 43.0f32.to_bits());
            assert_eq!(house_id, "h1");
            assert_eq!(wall_dir.name, "north");
        }
        other => panic!("{other:?}"),
    }
}
