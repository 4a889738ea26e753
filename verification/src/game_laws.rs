//! What the running game gets of what clients send: every request is the message
//! that was sent, in the name of the player who sent it.

use crate::auth::AuthContext;
use crate::connection::ConnectionState;
use crate::entity::{Monster, PlayerId};
use crate::game::{
    door_located, dungeon_door_toggled, dungeon_doors_listed, house_door_toggled, monster_spawned,
    play, spawn_validated, teleport_located, DungeonDoor, GameCommand, HouseDoor, Placement,
    SpawnRequest,
};
use crate::messages::{ClientMessage, ServerMessage};
use crate::session::{handle_client_message, Action};
use crate::world::{Position, Scalar};
use vstd::prelude::*;

verus! {

/// A move arrives as it was sent, with the rights of the connection: where to,
/// facing which way, on which floor, and whether it goes behind the waypoints that
/// are queued already or replaces them.
pub proof fn law_moves_arrive_as_sent(
    conn: &mut ConnectionState,
    position: Position,
    rotation: Scalar,
    floor_level: i8,
    append: bool,
    ctx: &AuthContext,
    now: u128,
    res: Action,
)
    requires
        call_ensures(
            handle_client_message,
            (
                conn,
                ClientMessage::PlayerMove { position, rotation, floor_level, append },
                ctx,
                now,
            ),
            res,
        ),
        old(conn).client_kind is Some,
        old(conn).player_id is Some,
    ensures
        res matches Action::Game(
            GameCommand::UpdatePlayerPosition { player, movement, is_admin, is_official_npc },
        ) && {
            &&& old(conn).player_id == Some(player)
            &&& movement.position == position
            &&& movement.rotation == rotation
            &&& movement.floor_level == floor_level
            &&& movement.append == append
            &&& is_admin == old(conn).is_admin
            &&& is_official_npc == old(conn).is_official_npc
        },
{
}

/// Two moves that differ in whether they replace the waypoint queue lead to
/// requests that differ in it.
pub proof fn law_append_tells_moves_apart(
    state: &ConnectionState,
    position: Position,
    rotation: Scalar,
    floor_level: i8,
    appended: Action,
    replacing: Action,
)
    requires
        state.player_id is Some,
        call_ensures(
            play,
            (
                state,
                ClientMessage::PlayerMove { position, rotation, floor_level, append: true },
            ),
            appended,
        ),
        call_ensures(
            play,
            (
                state,
                ClientMessage::PlayerMove { position, rotation, floor_level, append: false },
            ),
            replacing,
        ),
    ensures
        appended != replacing,
        appended matches Action::Game(GameCommand::UpdatePlayerPosition { movement, .. })
            && movement.append,
        replacing matches Action::Game(GameCommand::UpdatePlayerPosition { movement, .. })
            && !movement.append,
{
}

/// A chat line that is no cheat, or that an admin sends, is said by the player
/// letter for letter.
pub proof fn law_chat_arrives_as_sent(
    conn: &mut ConnectionState,
    message: String,
    ctx: &AuthContext,
    now: u128,
    res: Action,
)
    requires
        call_ensures(
            handle_client_message,
            (conn, ClientMessage::ChatMessage { message }, ctx, now),
            res,
        ),
        old(conn).client_kind is Some,
        old(conn).player_id is Some,
        old(conn).is_admin || (!"/give "@.is_prefix_of(message@) && message@ != "/notice"@
            && !"/notice "@.is_prefix_of(message@)),
    ensures
        res matches Action::Game(GameCommand::SendChatMessage { player, message: said }) && {
            &&& old(conn).player_id == Some(player)
            &&& said == message
        },
{
}

/// A player's moves of monsters, attacks and respawns reach the running game in the
/// name of that player, with every field as it was sent.
pub proof fn law_fights_arrive_as_sent(
    conn: &mut ConnectionState,
    msg: ClientMessage,
    ctx: &AuthContext,
    now: u128,
    res: Action,
)
    requires
        call_ensures(handle_client_message, (conn, msg, ctx, now), res),
        old(conn).client_kind is Some,
        old(conn).player_id is Some,
    ensures
        match msg {
            ClientMessage::PlayerFloorChanged { floor_level } => {
                &&& res matches Action::Game(GameCommand::UpdatePlayerFloor { player, floor_level: asked_floor_level })
                &&& old(conn).player_id == Some(player)
                &&& asked_floor_level == floor_level
            },
            ClientMessage::MonsterMove { monster_id, position, rotation, state, target_position } => {
                &&& res matches Action::Game(GameCommand::UpdateMonsterPosition { player, monster_id: asked_monster_id, position: asked_position, rotation: asked_rotation, state: asked_state, target_position: asked_target_position })
                &&& old(conn).player_id == Some(player)
                &&& asked_monster_id == monster_id
                &&& asked_position == position
                &&& asked_rotation == rotation
                &&& asked_state == state
                &&& asked_target_position == target_position
            },
            ClientMessage::PlayerAttack { monster_id } => {
                &&& res matches Action::Game(GameCommand::PlayerAttack { player, monster_id: asked_monster_id })
                &&& old(conn).player_id == Some(player)
                &&& asked_monster_id == monster_id
            },
            ClientMessage::MonsterAttack { monster_id, target_player_id } => {
                &&& res matches Action::Game(GameCommand::MonsterAttack { player, monster_id: asked_monster_id, target_player_id: asked_target_player_id })
                &&& old(conn).player_id == Some(player)
                &&& asked_monster_id == monster_id
                &&& asked_target_player_id == target_player_id
            },
            ClientMessage::RequestRespawn => {
                &&& res matches Action::Game(GameCommand::Respawn { player })
                &&& old(conn).player_id == Some(player)
            },
            ClientMessage::RequestSpawnMonster { monster_type, position, rotation } => {
                &&& res matches Action::ValidateSpawn { player, request: asked }
                &&& old(conn).player_id == Some(player)
                &&& asked.monster_type == monster_type
                &&& asked.position == position
                &&& asked.rotation == rotation
            },
            _ => true,
        },
{
}

/// A player's requests about chests, props and doors reach the running game in the
/// name of that player, with every field as it was sent.
pub proof fn law_dungeon_requests_arrive_as_sent(
    conn: &mut ConnectionState,
    msg: ClientMessage,
    ctx: &AuthContext,
    now: u128,
    res: Action,
)
    requires
        call_ensures(handle_client_message, (conn, msg, ctx, now), res),
        old(conn).client_kind is Some,
        old(conn).player_id is Some,
    ensures
        match msg {
            ClientMessage::OpenDungeonChest { entrance_id } => {
                &&& res matches Action::Game(GameCommand::OpenDungeonChest { player, entrance_id: asked_entrance_id })
                &&& old(conn).player_id == Some(player)
                &&& asked_entrance_id == entrance_id
            },
            ClientMessage::BreakDungeonProp { entrance_id, depth, prop_id } => {
                &&& res matches Action::Game(GameCommand::BreakDungeonProp { player, entrance_id: asked_entrance_id, depth: asked_depth, prop_id: asked_prop_id })
                &&& old(conn).player_id == Some(player)
                &&& asked_entrance_id == entrance_id
                &&& asked_depth == depth
                &&& asked_prop_id == prop_id
            },
            ClientMessage::OpenDungeonProp { entrance_id, depth, prop_id } => {
                &&& res matches Action::Game(GameCommand::OpenDungeonProp { player, entrance_id: asked_entrance_id, depth: asked_depth, prop_id: asked_prop_id })
                &&& old(conn).player_id == Some(player)
                &&& asked_entrance_id == entrance_id
                &&& asked_depth == depth
                &&& asked_prop_id == prop_id
            },
            ClientMessage::ToggleDungeonDoor { entrance_id, depth, door_id } => {
                &&& res matches Action::ToggleDungeonDoor { player, door: asked }
                &&& old(conn).player_id == Some(player)
                &&& asked.entrance_id == entrance_id
                &&& asked.depth == depth
                &&& asked.door_id == door_id
            },
            ClientMessage::RequestDungeonDoors { entrance_id } => {
                &&& res matches Action::ListDungeonDoors { player, entrance_id: asked_entrance_id }
                &&& old(conn).player_id == Some(player)
                &&& asked_entrance_id == entrance_id
            },
            ClientMessage::ToggleDoor { house_id, room_index, wall_dir, segment_index } => {
                &&& res matches Action::ToggleHouseDoor { player, door: asked }
                &&& old(conn).player_id == Some(player)
                &&& asked.house_id == house_id
                &&& asked.room_index == room_index
                &&& asked.wall_dir == wall_dir
                &&& asked.segment_index == segment_index
            },
            _ => true,
        },
{
}

/// What a player does with items, torch and furniture reaches the running game in
/// the name of that player, with every field as it was sent.
pub proof fn law_item_requests_arrive_as_sent(
    conn: &mut ConnectionState,
    msg: ClientMessage,
    ctx: &AuthContext,
    now: u128,
    res: Action,
)
    requires
        call_ensures(handle_client_message, (conn, msg, ctx, now), res),
        old(conn).client_kind is Some,
        old(conn).player_id is Some,
    ensures
        match msg {
            ClientMessage::TorchToggle { enabled } => {
                &&& res matches Action::Game(GameCommand::SetTorch { player, enabled: asked_enabled })
                &&& old(conn).player_id == Some(player)
                &&& asked_enabled == enabled
            },
            ClientMessage::InteractObject { object_type, object_id } => {
                &&& res matches Action::Game(GameCommand::SetInteraction { player, object_type: asked_object_type, object_id: asked_object_id })
                &&& old(conn).player_id == Some(player)
                &&& asked_object_type == Some(object_type)
                &&& asked_object_id == Some(object_id)
            },
            ClientMessage::StopInteraction => {
                &&& res matches Action::Game(GameCommand::SetInteraction { player, object_type: asked_object_type, object_id: asked_object_id })
                &&& old(conn).player_id == Some(player)
                &&& asked_object_type == None::<String>
                &&& asked_object_id == None::<u32>
            },
            ClientMessage::EquipItem { instance_id } => {
                &&& res matches Action::Game(GameCommand::EquipItem { player, instance_id: asked_instance_id })
                &&& old(conn).player_id == Some(player)
                &&& asked_instance_id == instance_id
            },
            ClientMessage::UnequipItem { slot } => {
                &&& res matches Action::Game(GameCommand::UnequipItem { player, slot: asked_slot })
                &&& old(conn).player_id == Some(player)
                &&& asked_slot == slot
            },
            ClientMessage::DropItem { instance_id } => {
                &&& res matches Action::Game(GameCommand::DropItem { player, instance_id: asked_instance_id })
                &&& old(conn).player_id == Some(player)
                &&& asked_instance_id == instance_id
            },
            ClientMessage::PickupStarted => {
                &&& res matches Action::Game(GameCommand::PickupAnimation { player })
                &&& old(conn).player_id == Some(player)
            },
            ClientMessage::PickupItem { instance_id } => {
                &&& res matches Action::Game(GameCommand::PickupItem { player, instance_id: asked_instance_id })
                &&& old(conn).player_id == Some(player)
                &&& asked_instance_id == instance_id
            },
            ClientMessage::UseItem { instance_id } => {
                &&& res matches Action::Game(GameCommand::UseItem { player, instance_id: asked_instance_id })
                &&& old(conn).player_id == Some(player)
                &&& asked_instance_id == instance_id
            },
            _ => true,
        },
{
}

/// A player's trade requests reach the running game in the name of that player,
/// with every field as it was sent; a shop is opened on the customer's own request.
pub proof fn law_trade_requests_arrive_as_sent(
    conn: &mut ConnectionState,
    msg: ClientMessage,
    ctx: &AuthContext,
    now: u128,
    res: Action,
)
    requires
        call_ensures(handle_client_message, (conn, msg, ctx, now), res),
        old(conn).client_kind is Some,
        old(conn).player_id is Some,
    ensures
        match msg {
            ClientMessage::OpenShop { merchant_player_id } => {
                &&& res matches Action::Game(GameCommand::OpenShop { player, merchant_player_id: asked_merchant_player_id, requested: asked_requested })
                &&& old(conn).player_id == Some(player)
                &&& asked_merchant_player_id == merchant_player_id
                &&& asked_requested == true
            },
            ClientMessage::CloseShop { merchant_player_id } => {
                &&& res matches Action::Game(GameCommand::CloseShop { player, merchant_player_id: asked_merchant_player_id })
                &&& old(conn).player_id == Some(player)
                &&& asked_merchant_player_id == merchant_player_id
            },
            ClientMessage::BuyItem { merchant_player_id, item_def_id } => {
                &&& res matches Action::Game(GameCommand::BuyItem { player, merchant_player_id: asked_merchant_player_id, item_def_id: asked_item_def_id })
                &&& old(conn).player_id == Some(player)
                &&& asked_merchant_player_id == merchant_player_id
                &&& asked_item_def_id == item_def_id
            },
            ClientMessage::SellItem { merchant_player_id, instance_id } => {
                &&& res matches Action::Game(GameCommand::SellItem { player, merchant_player_id: asked_merchant_player_id, instance_id: asked_instance_id })
                &&& old(conn).player_id == Some(player)
                &&& asked_merchant_player_id == merchant_player_id
                &&& asked_instance_id == instance_id
            },
            ClientMessage::BuybackItem { merchant_player_id, entry_id } => {
                &&& res matches Action::Game(GameCommand::BuybackItem { player, merchant_player_id: asked_merchant_player_id, entry_id: asked_entry_id })
                &&& old(conn).player_id == Some(player)
                &&& asked_merchant_player_id == merchant_player_id
                &&& asked_entry_id == entry_id
            },
            ClientMessage::OfferDeal { target_player_id, item_def_id, kind, modifier_pct, reason } => {
                &&& res matches Action::Game(GameCommand::OfferDeal { player, target_player_id: asked_target_player_id, item_def_id: asked_item_def_id, kind: asked_kind, modifier_pct: asked_modifier_pct, reason: asked_reason })
                &&& old(conn).player_id == Some(player)
                &&& asked_target_player_id == target_player_id
                &&& asked_item_def_id == item_def_id
                &&& asked_kind == kind
                &&& asked_modifier_pct == modifier_pct
                &&& asked_reason == reason
            },
            ClientMessage::OpenTrade { target_player_id } => {
                &&& res matches Action::Game(GameCommand::OpenTrade { player, target_player_id: asked_target_player_id })
                &&& old(conn).player_id == Some(player)
                &&& asked_target_player_id == target_player_id
            },
            _ => true,
        },
{
}

/// An admin's debug messages reach the running game with every field as it was
/// sent.
pub proof fn law_admin_requests_arrive_as_sent(
    conn: &mut ConnectionState,
    msg: ClientMessage,
    ctx: &AuthContext,
    now: u128,
    res: Action,
)
    requires
        call_ensures(handle_client_message, (conn, msg, ctx, now), res),
        old(conn).client_kind is Some,
        old(conn).player_id is Some,
        old(conn).is_admin,
    ensures
        match msg {
            ClientMessage::DebugTeleport { position } => {
                &&& res matches Action::LocateForTeleport { player, position: asked_position }
                &&& old(conn).player_id == Some(player)
                &&& asked_position == position
            },
            ClientMessage::DebugDropItem { item_def_id } => {
                &&& res matches Action::Game(GameCommand::DebugDropItem { player, item_def_id: asked_item_def_id })
                &&& old(conn).player_id == Some(player)
                &&& asked_item_def_id == item_def_id
            },
            ClientMessage::DebugSetTime { hour, minute } => {
                &&& res matches Action::Game(GameCommand::DebugSetTime { hour: asked_hour, minute: asked_minute })
                &&& asked_hour == hour
                &&& asked_minute == minute
            },
            ClientMessage::DebugResetDungeonProps { entrance_id } => {
                &&& res matches Action::Game(GameCommand::DebugResetDungeonProps { entrance_id: asked_entrance_id })
                &&& asked_entrance_id == entrance_id
            },
            _ => true,
        },
{
}

/// Clients cannot place, change or remove houses this way: such messages do
/// nothing.
pub proof fn law_housing_messages_do_nothing(
    conn: &mut ConnectionState,
    msg: ClientMessage,
    ctx: &AuthContext,
    now: u128,
    res: Action,
)
    requires
        call_ensures(handle_client_message, (conn, msg, ctx, now), res),
        old(conn).client_kind is Some,
        msg is PlaceHouse || msg is ModifyRoom || msg is RemoveHouse,
    ensures
        res is Done,
        *final(conn) == *old(conn),
{
}

/// A spawn request the game accepts is created as it was asked for, on the
/// surface, driven by the client that asked, neither levelled nor enraged; one
/// that it does not accept comes to nothing.
pub proof fn law_accepted_spawns_are_as_asked(
    player: PlayerId,
    request: SpawnRequest,
    valid: bool,
    res: Action,
)
    requires
        call_ensures(spawn_validated, (player, request, valid), res),
    ensures
        !valid ==> res is Done,
        valid ==> (res matches Action::SpawnMonster { player: driver, spawn } && {
            &&& driver == player
            &&& spawn.monster_type == request.monster_type
            &&& spawn.position == request.position
            &&& spawn.rotation == request.rotation
            &&& spawn.owner_id == Some(player)
            &&& spawn.floor_level == 0
            &&& spawn.level_override is None
            &&& !spawn.aggressive
        }),
{
}

/// Who asked for a monster, and nobody else, is told to drive the one that came.
pub proof fn law_spawned_monsters_are_assigned(
    player: PlayerId,
    monster: Option<Monster>,
    res: Action,
)
    requires
        call_ensures(monster_spawned, (player, monster), res),
    ensures
        monster is None ==> res is Done,
        monster matches Some(spawned) ==> (res matches Action::Game(
            GameCommand::SendDirect { player: told, message },
        ) && {
            &&& told == player
            &&& message matches ServerMessage::MonsterAssigned { monster: assigned }
            &&& assigned == spawned
        }),
{
}

/// A toggled dungeon door is published as the door it is, open or closed as the
/// toggle left it; a refused toggle is not published.
pub proof fn law_dungeon_doors_are_published_as_toggled(
    player: PlayerId,
    door: DungeonDoor,
    toggled: Option<bool>,
    res: Action,
)
    requires
        call_ensures(dungeon_door_toggled, (player, door, toggled), res),
    ensures
        toggled is None ==> res is Done,
        toggled matches Some(open) ==> (res matches Action::Game(
            GameCommand::PublishDungeonDoor { player: by, door: published, is_open },
        ) && {
            &&& by == player
            &&& published.entrance_id == door.entrance_id
            &&& published.depth == door.depth
            &&& published.door_id == door.door_id
            &&& is_open == open
        }),
{
}

/// The open doors of a dungeon go to the player who asked, all of them.
pub proof fn law_listed_doors_go_to_who_asked(
    player: PlayerId,
    entrance_id: String,
    doors: Vec<(u8, u32)>,
    res: Action,
)
    requires
        call_ensures(dungeon_doors_listed, (player, entrance_id, doors), res),
    ensures
        res matches Action::Game(GameCommand::SendDirect { player: told, message }) && {
            &&& told == player
            &&& message matches ServerMessage::DungeonDoorsState { entrance_id: of, doors: listed }
            &&& of == entrance_id
            &&& listed == doors
        },
{
}

/// A teleport goes to the place that was asked for, on the floor that lies there,
/// and keeps the player's facing.
pub proof fn law_teleports_keep_the_facing(
    player: PlayerId,
    position: Position,
    current: Option<Placement>,
    floor_level: i8,
    res: Action,
)
    requires
        call_ensures(teleport_located, (player, position, current, floor_level), res),
    ensures
        res matches Action::Game(
            GameCommand::Teleport { player: moved, position: to, rotation, floor_level: floor },
        ) && {
            &&& moved == player
            &&& to == position
            &&& floor == floor_level
            &&& current matches Some(placement) ==> rotation == placement.rotation
            &&& current is None ==> rotation.bits == 0
        },
{
}

/// After a house door was toggled its player is located; the news is that very
/// door and its new state, and it goes out around where the player stands, as far
/// as 43 units, on that floor.
pub proof fn law_house_doors_are_told_around_the_player(
    player: PlayerId,
    door: HouseDoor,
    toggled: Option<bool>,
    asked: Action,
    current: Option<Placement>,
    res: Action,
)
    requires
        call_ensures(house_door_toggled, (player, door, toggled), asked),
        toggled matches Some(is_open) ==> call_ensures(door_located, (door, is_open, current), res),
    ensures
        toggled is None ==> asked is Done,
        toggled matches Some(open) ==> {
            &&& asked matches Action::LocateForDoor { player: by, door: of, is_open }
            &&& by == player
            &&& of == door
            &&& is_open == open
            &&& current is None ==> res is Done
            &&& current matches Some(placement) ==> (res matches Action::Game(
                GameCommand::SendNearby { position, floor_level, radius, message },
            ) && {
                &&& position == placement.position
                &&& floor_level == placement.floor_level
                &&& radius.bits == 0x422c_0000
                &&& message matches ServerMessage::DoorToggled {
                    house_id,
                    room_index,
                    wall_dir,
                    segment_index,
                    is_open: told,
                }
                &&& house_id == door.house_id
                &&& room_index == door.room_index
                &&& wall_dir == door.wall_dir
                &&& segment_index == door.segment_index
                &&& told == open
            })
        },
{
}

} // verus!
