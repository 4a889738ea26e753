//! Entering the game: from a stored character to a player in the world, with
//! everything the client has to be told on the way.

use crate::character::{CharacterAttributes, CharacterClass, CharacterRecord, Gender};
use crate::connection::{refuse_character, ConnectionState};
use crate::entity::{ClientKind, Player, PlayerId};
use crate::messages::ServerMessage;
use crate::payload::PlayerInventory;
use crate::session::{under_way, Action, Stage};
use crate::world::{GameDateTime, NoSpawnZone, Position, Scalar};
use vstd::prelude::*;

verus! {

/// What a player is created from.
#[derive(Debug)]
pub struct NewPlayer {
    pub name: String,
    pub level: u32,
    pub max_hp: u32,
    pub class: CharacterClass,
    pub gender: Gender,
    pub position: Position,
    pub rotation: Scalar,
    pub is_official_npc: bool,
    pub client_kind: ClientKind,
}

/// Where characters appear when they cannot go back to where they were.
#[derive(Debug, Clone, Copy)]
pub struct SpawnPoint {
    pub position: Position,
    pub rotation: Scalar,
}

/// A character on its way into the game.
#[derive(Debug)]
pub struct Entering {
    pub character_id: i64,
    pub record: CharacterRecord,
    pub player: Player,
}

/// One step of making a player known to the running game.
#[derive(Debug)]
pub enum RegistrationStep {
    OpenDirectChannel { player: PlayerId },
    RegisterCharacter {
        player: PlayerId,
        character_id: i64,
        xp: u64,
        attributes: CharacterAttributes,
        gold: i64,
    },
    /// Hand the names this character blocks to the game, if they can be loaded.
    LoadBlockedNames { player: PlayerId, character_id: i64 },
    /// Hand the dungeon chests this character opened to the game, if they can
    /// be loaded.
    LoadChestOpens { character_id: i64 },
    LoadInventory { player: PlayerId, character_id: i64 },
}

/// What a player carries, and whether that makes light.
#[derive(Debug)]
pub struct CarriedInventory {
    pub inventory: PlayerInventory,
    pub torch_lit: bool,
}

/// What the running game knows that a joining client has to be told.
#[derive(Debug)]
pub struct JoinFacts {
    pub inventory: Option<CarriedInventory>,
    pub datetime: GameDateTime,
    pub is_night: bool,
    pub zones: Vec<NoSpawnZone>,
    pub guard: i32,
    pub notice: Option<String>,
}

/// What the connection keeps of a player that was put into the world.
#[derive(Debug)]
pub struct Joined {
    pub player_id: PlayerId,
    pub character_name: String,
    pub floor_level: i8,
    pub position: Position,
}

/// A player walks onto a floor from another one without moving.
#[derive(Debug, Clone, Copy)]
pub struct FloorEntry {
    pub player: PlayerId,
    pub from_floor: i8,
    pub to_floor: i8,
    pub position: Position,
}

/// What the player of a stored character is created from.
pub open spec fn player_request(state: ConnectionState, record: CharacterRecord) -> NewPlayer {
    NewPlayer {
        name: record.name,
        level: record.level,
        max_hp: record.max_hp,
        class: record.class,
        gender: record.gender,
        position: Position { x: record.last_x, y: record.last_y, z: record.last_z },
        rotation: record.last_rotation,
        is_official_npc: state.is_official_npc,
        client_kind: (match state.client_kind {
            Some(kind) => kind,
            None => ClientKind::Other,
        }),
    }
}

/// The connection with the admin rights its account and the character give it.
pub open spec fn with_character(state: ConnectionState, record: CharacterRecord) -> ConnectionState {
    ConnectionState { is_admin: state.admin_eligible && record.admin_role > 0, ..state }
}

/// After the character to enter with was loaded: admin rights take an eligible
/// account and a character with an admin role, and the character's player is
/// created in place of any other session. A failed load is refused in the words
/// of the store.
pub fn character_loaded(
    state: &mut ConnectionState,
    character_id: i64,
    loaded: Result<CharacterRecord, String>,
) -> (res: Action)
    ensures
        match loaded {
            Ok(record) => {
                &&& *final(state) == with_character(*old(state), record)
                &&& res == (Action::ReplaceSession {
                    character_id,
                    record,
                    player: player_request(*old(state), record),
                })
            },
            Err(text) => *final(state) == *old(state) && res.refuses_character(text@),
        },
        under_way(*old(state), Stage::ChoosingCharacter) ==> under_way(*final(state), res.stage()),
{
    let record = match loaded {
        Ok(record) => record,
        Err(text) => {
            return Action::Reply(refuse_character(text.as_str()));
        },
    };
    state.is_admin = state.admin_eligible && record.admin_role > 0;
    let client_kind = match state.client_kind {
        Some(kind) => kind,
        None => ClientKind::Other,
    };
    let player = NewPlayer {
        name: record.name.clone(),
        level: record.level,
        max_hp: record.max_hp,
        class: record.class,
        gender: record.gender,
        position: Position { x: record.last_x, y: record.last_y, z: record.last_z },
        rotation: record.last_rotation,
        is_official_npc: state.is_official_npc,
        client_kind,
    };
    Action::ReplaceSession { character_id, record, player }
}

/// The created player with its saved state put back: saved health, capped at
/// the maximum, and the floor it was on. `floor` is what remains of the saved
/// floor once floors out of range are taken out; where it differs, the player
/// starts at the world spawn.
pub open spec fn restored(
    player: Player,
    record: CharacterRecord,
    floor: i8,
    spawn: SpawnPoint,
) -> Player {
    Player {
        health: (match record.health {
            Some(saved) => if saved <= record.max_hp {
                saved
            } else {
                record.max_hp
            },
            None => player.health,
        }),
        floor_level: floor,
        position: (if floor != record.floor_level {
            spawn.position
        } else {
            player.position
        }),
        rotation: (if floor != record.floor_level {
            spawn.rotation
        } else {
            player.rotation
        }),
        ..player
    }
}

/// The steps that make a player known to the running game, in order.
pub open spec fn registration(entering: Entering) -> Seq<RegistrationStep> {
    let player = entering.player.id;
    let character_id = entering.character_id;
    seq![
        RegistrationStep::OpenDirectChannel { player },
        RegistrationStep::RegisterCharacter {
            player,
            character_id,
            xp: entering.record.xp,
            attributes: entering.record.attributes,
            gold: entering.record.gold,
        },
        RegistrationStep::LoadBlockedNames { player, character_id },
        RegistrationStep::LoadChestOpens { character_id },
        RegistrationStep::LoadInventory { player, character_id },
    ]
}

fn register(entering: Entering) -> (res: Action)
    ensures
        res matches Action::Register { entering: registered, steps } && registered == entering
            && steps@ == registration(entering),
{
    let player = entering.player.id;
    let character_id: i64 = entering.character_id;
    let steps = vec![
        RegistrationStep::OpenDirectChannel { player },
        RegistrationStep::RegisterCharacter {
            player,
            character_id,
            xp: entering.record.xp,
            attributes: entering.record.attributes,
            gold: entering.record.gold,
        },
        RegistrationStep::LoadBlockedNames { player, character_id },
        RegistrationStep::LoadChestOpens { character_id },
        RegistrationStep::LoadInventory { player, character_id },
    ];
    Action::Register { entering, steps }
}

/// After the player was created: its saved state is put back. A player on a
/// negative floor logged out inside a dungeon, which has to be re-primed first.
pub fn player_created(
    character_id: i64,
    record: CharacterRecord,
    player: Player,
    floor: i8,
    spawn: SpawnPoint,
) -> (res: Action)
    ensures
        res.stays_in(Stage::ChoosingCharacter),
        ({
            let entering = Entering {
                character_id,
                record,
                player: restored(player, record, floor, spawn),
            };
            if floor < 0 {
                res == (Action::RehydrateDungeon { entering })
            } else {
                res matches Action::Register { entering: registered, steps } && registered
                    == entering && steps@ == registration(entering)
            }
        }),
{
    let mut player = player;
    match record.health {
        Some(saved) => {
            player.health = if saved <= record.max_hp {
                saved
            } else {
                record.max_hp
            };
        },
        None => {},
    }
    player.floor_level = floor;
    if floor != record.floor_level {
        player.position = spawn.position;
        player.rotation = spawn.rotation;
    }
    let entering = Entering { character_id, record, player };
    if floor < 0 {
        Action::RehydrateDungeon { entering }
    } else {
        register(entering)
    }
}

/// After the dungeon was re-primed: a player whose dungeon is gone starts at the
/// world spawn, on the surface.
pub fn dungeon_rehydrated(entering: Entering, ok: bool, spawn: SpawnPoint) -> (res: Action)
    ensures
        res.stays_in(Stage::ChoosingCharacter),
        ({
            let player = if ok {
                entering.player
            } else {
                Player {
                    position: spawn.position,
                    rotation: spawn.rotation,
                    floor_level: 0,
                    ..entering.player
                }
            };
            let settled = Entering { player, ..entering };
            res matches Action::Register { entering: registered, steps } && registered == settled
                && steps@ == registration(settled)
        }),
{
    let mut entering = entering;
    if !ok {
        entering.player.position = spawn.position;
        entering.player.rotation = spawn.rotation;
        entering.player.floor_level = 0;
    }
    register(entering)
}

/// The player as it enters the world: an inventory with a lit torch makes light.
pub open spec fn lit(player: Player, facts: JoinFacts) -> Player {
    Player {
        torch_on: (match facts.inventory {
            Some(carried) => carried.torch_lit,
            None => false,
        }),
        ..player
    }
}

/// What a joining client is told, in order: the join itself, the time, the
/// no-spawn zones, the inventory where there is one, guard, gold, and the server
/// notice where there is one.
pub open spec fn join_replies(
    player: Player,
    is_admin: bool,
    facts: JoinFacts,
    gold: i64,
) -> Seq<ServerMessage> {
    let opening = seq![
        ServerMessage::JoinSuccess { player, is_admin },
        ServerMessage::GameTimeSync { datetime: facts.datetime, is_night: facts.is_night },
        ServerMessage::NoSpawnZones { zones: facts.zones },
    ];
    let inventory = match facts.inventory {
        Some(carried) => seq![ServerMessage::InventoryState { inventory: carried.inventory }],
        None => seq![],
    };
    let standing = seq![
        ServerMessage::GuardUpdated { guard: facts.guard },
        ServerMessage::GoldUpdate { gold },
    ];
    let notice = match facts.notice {
        Some(notice) => seq![ServerMessage::ServerNotice { message: Some(notice) }],
        None => seq![],
    };
    opening + inventory + standing + notice
}

/// After the player was made known to the running game: the join replies are
/// drawn up and the player goes into the world.
pub fn player_registered(state: &ConnectionState, entering: Entering, facts: JoinFacts) -> (res:
    Action)
    ensures
        res.stays_in(Stage::ChoosingCharacter),
        ({
            let entrant = lit(entering.player, facts);
            &&& res matches Action::AddPlayer { player, joined, replies }
            &&& player == entrant
            &&& joined == (Joined {
                player_id: entrant.id,
                character_name: entering.record.name,
                floor_level: entrant.floor_level,
                position: entrant.position,
            })
            &&& replies@ == join_replies(entrant, state.is_admin, facts, entering.record.gold)
        }),
{
    let ghost told = facts;
    let gold: i64 = entering.record.gold;
    let mut player = entering.player;
    let mut inventory: Option<PlayerInventory> = None;
    match facts.inventory {
        Some(carried) => {
            player.torch_on = carried.torch_lit;
            inventory = Some(carried.inventory);
        },
        None => {
            player.torch_on = false;
        },
    }
    let joined = Joined {
        player_id: player.id,
        character_name: entering.record.name,
        floor_level: player.floor_level,
        position: player.position,
    };
    let mut replies: Vec<ServerMessage> = vec![
        ServerMessage::JoinSuccess { player: player.clone(), is_admin: state.is_admin },
        ServerMessage::GameTimeSync { datetime: facts.datetime, is_night: facts.is_night },
        ServerMessage::NoSpawnZones { zones: facts.zones },
    ];
    match inventory {
        Some(inventory) => {
            replies.push(ServerMessage::InventoryState { inventory });
        },
        None => {},
    }
    replies.push(ServerMessage::GuardUpdated { guard: facts.guard });
    replies.push(ServerMessage::GoldUpdate { gold });
    match facts.notice {
        Some(notice) => {
            replies.push(ServerMessage::ServerNotice { message: Some(notice) });
        },
        None => {},
    }
    assert(replies@ =~= join_replies(player, state.is_admin, told, gold));
    Action::AddPlayer { player, joined, replies }
}

/// After the player was put into the world: the connection is in game, a
/// snapshot of the surroundings goes out last, and a player inside a dungeon
/// enters its floor.
pub fn player_added(
    state: &mut ConnectionState,
    joined: Joined,
    replies: Vec<ServerMessage>,
    snapshot: Option<ServerMessage>,
) -> (res: Action)
    ensures
        *final(state) == (ConnectionState {
            player_id: Some(joined.player_id),
            character_name: Some(joined.character_name),
            ..*old(state)
        }),
        res matches Action::Entered { floor_entry, replies: all } && all@ == (match snapshot {
            Some(snapshot) => replies@.push(snapshot),
            None => replies@,
        }) && floor_entry == (if joined.floor_level < 0 {
            Some(
                FloorEntry {
                    player: joined.player_id,
                    from_floor: 0,
                    to_floor: joined.floor_level,
                    position: joined.position,
                },
            )
        } else {
            None
        }),
        under_way(*old(state), Stage::ChoosingCharacter) ==> under_way(*final(state), res.stage()),
{
    let mut replies = replies;
    match snapshot {
        Some(snapshot) => {
            replies.push(snapshot);
        },
        None => {},
    }
    let floor_entry = if joined.floor_level < 0 {
        Some(
            FloorEntry {
                player: joined.player_id,
                from_floor: 0,
                to_floor: joined.floor_level,
                position: joined.position,
            },
        )
    } else {
        None
    };
    state.player_id = Some(joined.player_id);
    state.character_name = Some(joined.character_name);
    Action::Entered { floor_entry, replies }
}

} // verus!
