//! In-game requests: what the running game is asked to do for each message of
//! a client whose character is in the world.

use crate::connection::ConnectionState;
use crate::entity::{Monster, PlayerId};
use crate::messages::{ClientMessage, DealKind, ServerMessage};
use crate::payload::{EquipSlot, MonsterState, WallDirection};
use crate::session::{Action, Stage};
use crate::world::{Position, Scalar, EVENT_DELIVERY_RADIUS};
use vstd::prelude::*;

verus! {

/// Where a player wants to walk.
#[derive(Debug)]
pub struct MoveCommand {
    pub position: Position,
    pub rotation: Scalar,
    pub floor_level: i8,
    /// Append to the waypoint queue instead of replacing it.
    pub append: bool,
}

/// A monster a client would like to have in the world.
#[derive(Debug)]
pub struct SpawnRequest {
    pub monster_type: String,
    pub position: Position,
    pub rotation: Scalar,
}

/// A monster the game is told to create.
#[derive(Debug)]
pub struct MonsterSpawn {
    pub monster_type: String,
    pub position: Position,
    pub rotation: Scalar,
    pub owner_id: Option<PlayerId>,
    pub floor_level: i8,
    pub level_override: Option<u32>,
    pub aggressive: bool,
}

/// A door of a dungeon.
#[derive(Debug)]
pub struct DungeonDoor {
    pub entrance_id: String,
    pub depth: u8,
    pub door_id: u32,
}

/// A door of a house.
#[derive(Debug)]
pub struct HouseDoor {
    pub house_id: String,
    pub room_index: u32,
    pub wall_dir: WallDirection,
    pub segment_index: u32,
}

/// Where a player is right now.
#[derive(Debug, Clone, Copy)]
pub struct Placement {
    pub position: Position,
    pub rotation: Scalar,
    pub floor_level: i8,
}

/// Something the running game does without an answer to the connection.
#[allow(inconsistent_fields)]
#[derive(Debug)]
pub enum GameCommand {
    UpdatePlayerPosition {
        player: PlayerId,
        movement: MoveCommand,
        is_admin: bool,
        is_official_npc: bool,
    },
    UpdatePlayerFloor { player: PlayerId, floor_level: i8 },
    SendChatMessage { player: PlayerId, message: String },
    UpdateMonsterPosition {
        player: PlayerId,
        monster_id: String,
        position: Position,
        rotation: Scalar,
        state: MonsterState,
        target_position: Position,
    },
    PlayerAttack { player: PlayerId, monster_id: String },
    MonsterAttack { player: PlayerId, monster_id: String, target_player_id: PlayerId },
    Respawn { player: PlayerId },
    OpenDungeonChest { player: PlayerId, entrance_id: String },
    BreakDungeonProp { player: PlayerId, entrance_id: String, depth: u8, prop_id: u32 },
    OpenDungeonProp { player: PlayerId, entrance_id: String, depth: u8, prop_id: u32 },
    /// Tell everyone near the door about its new state.
    PublishDungeonDoor { player: PlayerId, door: DungeonDoor, is_open: bool },
    /// Send one message to one player.
    SendDirect { player: PlayerId, message: ServerMessage },
    /// Send one message to everyone within `radius` of a point on a floor.
    SendNearby { position: Position, floor_level: i8, radius: Scalar, message: ServerMessage },
    Teleport { player: PlayerId, position: Position, rotation: Scalar, floor_level: i8 },
    DebugDropItem { player: PlayerId, item_def_id: String },
    DebugSetTime { hour: u8, minute: u8 },
    DebugResetDungeonProps { entrance_id: String },
    SetTorch { player: PlayerId, enabled: bool },
    SetInteraction { player: PlayerId, object_type: Option<String>, object_id: Option<u32> },
    EquipItem { player: PlayerId, instance_id: u64 },
    UnequipItem { player: PlayerId, slot: EquipSlot },
    DropItem { player: PlayerId, instance_id: u64 },
    PickupAnimation { player: PlayerId },
    PickupItem { player: PlayerId, instance_id: u64 },
    UseItem { player: PlayerId, instance_id: u64 },
    /// `requested` tells a customer's own request from a window an NPC pushes.
    OpenShop { player: PlayerId, merchant_player_id: PlayerId, requested: bool },
    CloseShop { player: PlayerId, merchant_player_id: PlayerId },
    BuyItem { player: PlayerId, merchant_player_id: PlayerId, item_def_id: String },
    SellItem { player: PlayerId, merchant_player_id: PlayerId, instance_id: u64 },
    BuybackItem { player: PlayerId, merchant_player_id: PlayerId, entry_id: u64 },
    OfferDeal {
        player: PlayerId,
        target_player_id: PlayerId,
        item_def_id: String,
        kind: DealKind,
        modifier_pct: i32,
        reason: String,
    },
    OpenTrade { player: PlayerId, target_player_id: PlayerId },
}

/// What a message of `player` asks of the running game. `is_admin` and
/// `is_official_npc` describe the connection it came on. Messages that are not
/// about the running game ask nothing of it.
pub open spec fn asked_of_game(
    msg: ClientMessage,
    player: PlayerId,
    is_admin: bool,
    is_official_npc: bool,
) -> Action {
    match msg {
        ClientMessage::PlayerMove { position, rotation, floor_level, append } => Action::Game(
            GameCommand::UpdatePlayerPosition {
                player,
                movement: MoveCommand { position, rotation, floor_level, append },
                is_admin,
                is_official_npc,
            },
        ),
        ClientMessage::PlayerFloorChanged { floor_level } => Action::Game(
            GameCommand::UpdatePlayerFloor { player, floor_level },
        ),
        ClientMessage::ChatMessage { message } => Action::Game(
            GameCommand::SendChatMessage { player, message },
        ),
        ClientMessage::RequestSpawnMonster { monster_type, position, rotation } =>
            Action::ValidateSpawn {
            player,
            request: SpawnRequest { monster_type, position, rotation },
        },
        ClientMessage::MonsterMove { monster_id, position, rotation, state, target_position } =>
            Action::Game(
            GameCommand::UpdateMonsterPosition {
                player,
                monster_id,
                position,
                rotation,
                state,
                target_position,
            },
        ),
        ClientMessage::PlayerAttack { monster_id } => Action::Game(
            GameCommand::PlayerAttack { player, monster_id },
        ),
        ClientMessage::MonsterAttack { monster_id, target_player_id } => Action::Game(
            GameCommand::MonsterAttack { player, monster_id, target_player_id },
        ),
        ClientMessage::RequestRespawn => Action::Game(GameCommand::Respawn { player }),
        ClientMessage::OpenDungeonChest { entrance_id } => Action::Game(
            GameCommand::OpenDungeonChest { player, entrance_id },
        ),
        ClientMessage::BreakDungeonProp { entrance_id, depth, prop_id } => Action::Game(
            GameCommand::BreakDungeonProp { player, entrance_id, depth, prop_id },
        ),
        ClientMessage::OpenDungeonProp { entrance_id, depth, prop_id } => Action::Game(
            GameCommand::OpenDungeonProp { player, entrance_id, depth, prop_id },
        ),
        ClientMessage::ToggleDungeonDoor { entrance_id, depth, door_id } =>
            Action::ToggleDungeonDoor {
            player,
            door: DungeonDoor { entrance_id, depth, door_id },
        },
        ClientMessage::RequestDungeonDoors { entrance_id } => Action::ListDungeonDoors {
            player,
            entrance_id,
        },
        ClientMessage::DebugTeleport { position } => Action::LocateForTeleport { player, position },
        ClientMessage::DebugDropItem { item_def_id } => Action::Game(
            GameCommand::DebugDropItem { player, item_def_id },
        ),
        ClientMessage::DebugSetTime { hour, minute } => Action::Game(
            GameCommand::DebugSetTime { hour, minute },
        ),
        ClientMessage::DebugResetDungeonProps { entrance_id } => Action::Game(
            GameCommand::DebugResetDungeonProps { entrance_id },
        ),
        ClientMessage::TorchToggle { enabled } => Action::Game(
            GameCommand::SetTorch { player, enabled },
        ),
        ClientMessage::InteractObject { object_type, object_id } => Action::Game(
            GameCommand::SetInteraction {
                player,
                object_type: Some(object_type),
                object_id: Some(object_id),
            },
        ),
        ClientMessage::StopInteraction => Action::Game(
            GameCommand::SetInteraction { player, object_type: None, object_id: None },
        ),
        ClientMessage::ToggleDoor { house_id, room_index, wall_dir, segment_index } =>
            Action::ToggleHouseDoor {
            player,
            door: HouseDoor { house_id, room_index, wall_dir, segment_index },
        },
        ClientMessage::EquipItem { instance_id } => Action::Game(
            GameCommand::EquipItem { player, instance_id },
        ),
        ClientMessage::UnequipItem { slot } => Action::Game(
            GameCommand::UnequipItem { player, slot },
        ),
        ClientMessage::DropItem { instance_id } => Action::Game(
            GameCommand::DropItem { player, instance_id },
        ),
        ClientMessage::PickupStarted => Action::Game(GameCommand::PickupAnimation { player }),
        ClientMessage::PickupItem { instance_id } => Action::Game(
            GameCommand::PickupItem { player, instance_id },
        ),
        ClientMessage::UseItem { instance_id } => Action::Game(
            GameCommand::UseItem { player, instance_id },
        ),
        ClientMessage::OpenShop { merchant_player_id } => Action::Game(
            GameCommand::OpenShop { player, merchant_player_id, requested: true },
        ),
        ClientMessage::CloseShop { merchant_player_id } => Action::Game(
            GameCommand::CloseShop { player, merchant_player_id },
        ),
        ClientMessage::BuyItem { merchant_player_id, item_def_id } => Action::Game(
            GameCommand::BuyItem { player, merchant_player_id, item_def_id },
        ),
        ClientMessage::SellItem { merchant_player_id, instance_id } => Action::Game(
            GameCommand::SellItem { player, merchant_player_id, instance_id },
        ),
        ClientMessage::BuybackItem { merchant_player_id, entry_id } => Action::Game(
            GameCommand::BuybackItem { player, merchant_player_id, entry_id },
        ),
        ClientMessage::OfferDeal { target_player_id, item_def_id, kind, modifier_pct, reason } =>
            Action::Game(
            GameCommand::OfferDeal {
                player,
                target_player_id,
                item_def_id,
                kind,
                modifier_pct,
                reason,
            },
        ),
        ClientMessage::OpenTrade { target_player_id } => Action::Game(
            GameCommand::OpenTrade { player, target_player_id },
        ),
        _ => Action::Done,
    }
}

/// What a message on this connection asks of the running game: nothing for a
/// client without a character in it.
pub open spec fn game_action(state: ConnectionState, msg: ClientMessage) -> Action {
    match state.player_id {
        Some(player) => asked_of_game(msg, player, state.is_admin, state.is_official_npc),
        None => Action::Done,
    }
}

/// Turns an in-game message into what the running game is asked to do.
pub fn play(state: &ConnectionState, msg: ClientMessage) -> (res: Action)
    ensures
        res == game_action(*state, msg),
        res.stays_in(Stage::Playing),
        !state.in_game() ==> res is Done,
{
    let player = match state.player_id {
        Some(player) => player,
        None => {
            return Action::Done;
        },
    };
    let is_admin = state.is_admin;
    let is_official_npc = state.is_official_npc;
    match msg {
        ClientMessage::PlayerMove { position, rotation, floor_level, append } => Action::Game(
            GameCommand::UpdatePlayerPosition {
                player,
                movement: MoveCommand { position, rotation, floor_level, append },
                is_admin,
                is_official_npc,
            },
        ),
        ClientMessage::PlayerFloorChanged { floor_level } => Action::Game(
            GameCommand::UpdatePlayerFloor { player, floor_level },
        ),
        ClientMessage::ChatMessage { message } => Action::Game(
            GameCommand::SendChatMessage { player, message },
        ),
        ClientMessage::RequestSpawnMonster { monster_type, position, rotation } =>
            Action::ValidateSpawn {
            player,
            request: SpawnRequest { monster_type, position, rotation },
        },
        ClientMessage::MonsterMove { monster_id, position, rotation, state, target_position } =>
            Action::Game(
            GameCommand::UpdateMonsterPosition {
                player,
                monster_id,
                position,
                rotation,
                state,
                target_position,
            },
        ),
        ClientMessage::PlayerAttack { monster_id } => Action::Game(
            GameCommand::PlayerAttack { player, monster_id },
        ),
        ClientMessage::MonsterAttack { monster_id, target_player_id } => Action::Game(
            GameCommand::MonsterAttack { player, monster_id, target_player_id },
        ),
        ClientMessage::RequestRespawn => Action::Game(GameCommand::Respawn { player }),
        ClientMessage::OpenDungeonChest { entrance_id } => Action::Game(
            GameCommand::OpenDungeonChest { player, entrance_id },
        ),
        ClientMessage::BreakDungeonProp { entrance_id, depth, prop_id } => Action::Game(
            GameCommand::BreakDungeonProp { player, entrance_id, depth, prop_id },
        ),
        ClientMessage::OpenDungeonProp { entrance_id, depth, prop_id } => Action::Game(
            GameCommand::OpenDungeonProp { player, entrance_id, depth, prop_id },
        ),
        ClientMessage::ToggleDungeonDoor { entrance_id, depth, door_id } =>
            Action::ToggleDungeonDoor {
            player,
            door: DungeonDoor { entrance_id, depth, door_id },
        },
        ClientMessage::RequestDungeonDoors { entrance_id } => Action::ListDungeonDoors {
            player,
            entrance_id,
        },
        ClientMessage::DebugTeleport { position } => Action::LocateForTeleport { player, position },
        ClientMessage::DebugDropItem { item_def_id } => Action::Game(
            GameCommand::DebugDropItem { player, item_def_id },
        ),
        ClientMessage::DebugSetTime { hour, minute } => Action::Game(
            GameCommand::DebugSetTime { hour, minute },
        ),
        ClientMessage::DebugResetDungeonProps { entrance_id } => Action::Game(
            GameCommand::DebugResetDungeonProps { entrance_id },
        ),
        ClientMessage::TorchToggle { enabled } => Action::Game(
            GameCommand::SetTorch { player, enabled },
        ),
        ClientMessage::InteractObject { object_type, object_id } => Action::Game(
            GameCommand::SetInteraction {
                player,
                object_type: Some(object_type),
                object_id: Some(object_id),
            },
        ),
        ClientMessage::StopInteraction => Action::Game(
            GameCommand::SetInteraction { player, object_type: None, object_id: None },
        ),
        ClientMessage::ToggleDoor { house_id, room_index, wall_dir, segment_index } =>
            Action::ToggleHouseDoor {
            player,
            door: HouseDoor { house_id, room_index, wall_dir, segment_index },
        },
        ClientMessage::EquipItem { instance_id } => Action::Game(
            GameCommand::EquipItem { player, instance_id },
        ),
        ClientMessage::UnequipItem { slot } => Action::Game(
            GameCommand::UnequipItem { player, slot },
        ),
        ClientMessage::DropItem { instance_id } => Action::Game(
            GameCommand::DropItem { player, instance_id },
        ),
        ClientMessage::PickupStarted => Action::Game(GameCommand::PickupAnimation { player }),
        ClientMessage::PickupItem { instance_id } => Action::Game(
            GameCommand::PickupItem { player, instance_id },
        ),
        ClientMessage::UseItem { instance_id } => Action::Game(
            GameCommand::UseItem { player, instance_id },
        ),
        ClientMessage::OpenShop { merchant_player_id } => Action::Game(
            GameCommand::OpenShop { player, merchant_player_id, requested: true },
        ),
        ClientMessage::CloseShop { merchant_player_id } => Action::Game(
            GameCommand::CloseShop { player, merchant_player_id },
        ),
        ClientMessage::BuyItem { merchant_player_id, item_def_id } => Action::Game(
            GameCommand::BuyItem { player, merchant_player_id, item_def_id },
        ),
        ClientMessage::SellItem { merchant_player_id, instance_id } => Action::Game(
            GameCommand::SellItem { player, merchant_player_id, instance_id },
        ),
        ClientMessage::BuybackItem { merchant_player_id, entry_id } => Action::Game(
            GameCommand::BuybackItem { player, merchant_player_id, entry_id },
        ),
        ClientMessage::OfferDeal { target_player_id, item_def_id, kind, modifier_pct, reason } =>
            Action::Game(
            GameCommand::OfferDeal {
                player,
                target_player_id,
                item_def_id,
                kind,
                modifier_pct,
                reason,
            },
        ),
        ClientMessage::OpenTrade { target_player_id } => Action::Game(
            GameCommand::OpenTrade { player, target_player_id },
        ),
        _ => Action::Done,
    }
}

/// After the game judged a spawn request: an acceptable one is created on the
/// surface, driven by the client that asked, neither levelled nor enraged.
pub fn spawn_validated(player: PlayerId, request: SpawnRequest, valid: bool) -> (res: Action)
    ensures
        res.stays_in(Stage::Playing),
        res == (if valid {
            Action::SpawnMonster {
                player,
                spawn: MonsterSpawn {
                    monster_type: request.monster_type,
                    position: request.position,
                    rotation: request.rotation,
                    owner_id: Some(player),
                    floor_level: 0,
                    level_override: None,
                    aggressive: false,
                },
            }
        } else {
            Action::Done
        }),
{
    if !valid {
        return Action::Done;
    }
    Action::SpawnMonster {
        player,
        spawn: MonsterSpawn {
            monster_type: request.monster_type,
            position: request.position,
            rotation: request.rotation,
            owner_id: Some(player),
            floor_level: 0,
            level_override: None,
            aggressive: false,
        },
    }
}

/// After the game tried to create a monster: the client that asked is told to
/// drive it, if there is one.
pub fn monster_spawned(player: PlayerId, monster: Option<Monster>) -> (res: Action)
    ensures
        res.stays_in(Stage::Playing),
        res == (match monster {
            Some(monster) => Action::Game(
                GameCommand::SendDirect {
                    player,
                    message: ServerMessage::MonsterAssigned { monster },
                },
            ),
            None => Action::Done,
        }),
{
    match monster {
        Some(monster) => Action::Game(
            GameCommand::SendDirect { player, message: ServerMessage::MonsterAssigned { monster } },
        ),
        None => Action::Done,
    }
}

/// After the game toggled a dungeon door: its new state is published, unless
/// the toggle was refused.
pub fn dungeon_door_toggled(player: PlayerId, door: DungeonDoor, toggled: Option<bool>) -> (res:
    Action)
    ensures
        res.stays_in(Stage::Playing),
        res == (match toggled {
            Some(is_open) => Action::Game(
                GameCommand::PublishDungeonDoor { player, door, is_open },
            ),
            None => Action::Done,
        }),
{
    match toggled {
        Some(is_open) => Action::Game(GameCommand::PublishDungeonDoor { player, door, is_open }),
        None => Action::Done,
    }
}

/// After the game listed the open doors of a dungeon: they go to the player who
/// asked.
pub fn dungeon_doors_listed(player: PlayerId, entrance_id: String, doors: Vec<(u8, u32)>) -> (res:
    Action)
    ensures
        res.stays_in(Stage::Playing),
        res == Action::Game(
            GameCommand::SendDirect {
                player,
                message: ServerMessage::DungeonDoorsState { entrance_id, doors },
            },
        ),
{
    Action::Game(
        GameCommand::SendDirect {
            player,
            message: ServerMessage::DungeonDoorsState { entrance_id, doors },
        },
    )
}

/// After the game was asked where a player is and which floor the target lies
/// on: the player is moved there, facing the same way as before (or along zero
/// when the game does not know the player).
pub fn teleport_located(
    player: PlayerId,
    position: Position,
    current: Option<Placement>,
    floor_level: i8,
) -> (res: Action)
    ensures
        res.stays_in(Stage::Playing),
        res == Action::Game(
            GameCommand::Teleport {
                player,
                position,
                rotation: (match current {
                    Some(placement) => placement.rotation,
                    None => Scalar { bits: 0 },
                }),
                floor_level,
            },
        ),
{
    let rotation = match current {
        Some(placement) => placement.rotation,
        None => Scalar { bits: 0 },
    };
    Action::Game(GameCommand::Teleport { player, position, rotation, floor_level })
}

/// After the game toggled a house door: the player who did it is located, so
/// that the news reaches whoever is near, unless the toggle was refused.
pub fn house_door_toggled(player: PlayerId, door: HouseDoor, toggled: Option<bool>) -> (res: Action)
    ensures
        res.stays_in(Stage::Playing),
        res == (match toggled {
            Some(is_open) => Action::LocateForDoor { player, door, is_open },
            None => Action::Done,
        }),
{
    match toggled {
        Some(is_open) => Action::LocateForDoor { player, door, is_open },
        None => Action::Done,
    }
}

/// After the game located the player at a house door: the door's new state goes
/// to everyone within event range on that floor.
pub fn door_located(door: HouseDoor, is_open: bool, current: Option<Placement>) -> (res: Action)
    ensures
        res.stays_in(Stage::Playing),
        res == (match current {
            Some(placement) => Action::Game(
                GameCommand::SendNearby {
                    position: placement.position,
                    floor_level: placement.floor_level,
                    radius: Scalar { bits: EVENT_DELIVERY_RADIUS },
                    message: ServerMessage::DoorToggled {
                        house_id: door.house_id,
                        room_index: door.room_index,
                        wall_dir: door.wall_dir,
                        segment_index: door.segment_index,
                        is_open,
                    },
                },
            ),
            None => Action::Done,
        }),
{
    match current {
        Some(placement) => Action::Game(
            GameCommand::SendNearby {
                position: placement.position,
                floor_level: placement.floor_level,
                radius: Scalar { bits: EVENT_DELIVERY_RADIUS },
                message: ServerMessage::DoorToggled {
                    house_id: door.house_id,
                    room_index: door.room_index,
                    wall_dir: door.wall_dir,
                    segment_index: door.segment_index,
                    is_open,
                },
            },
        ),
        None => Action::Done,
    }
}

} // verus!
