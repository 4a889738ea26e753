//! What entering the game does to a character, from its record to the world, and
//! what the client learns of it.

use crate::character::CharacterRecord;
use crate::connection::ConnectionState;
use crate::entity::{ClientKind, Player};
use crate::join::{
    character_loaded, dungeon_rehydrated, player_added, player_created, player_registered, Entering,
    JoinFacts, Joined, RegistrationStep, SpawnPoint,
};
use crate::messages::ServerMessage;
use crate::session::Action;
use vstd::prelude::*;

verus! {

/// A loaded character is entered with what its record says, on the connection's
/// terms: nothing of the record is changed, the player is asked for by the record's
/// name, level, hit points, class, gender, place and facing, and the connection adds
/// whether it is an NPC's and which program is on the other end.
pub proof fn law_loaded_character_enters_as_recorded(
    state: &mut ConnectionState,
    character_id: i64,
    record: CharacterRecord,
    res: Action,
)
    requires
        call_ensures(character_loaded, (state, character_id, Ok(record)), res),
    ensures
        res matches Action::ReplaceSession { character_id: id, record: kept, player } && {
            &&& id == character_id
            &&& kept == record
            &&& player.name == record.name
            &&& player.level == record.level
            &&& player.max_hp == record.max_hp
            &&& player.class == record.class
            &&& player.gender == record.gender
            &&& player.position.x == record.last_x
            &&& player.position.y == record.last_y
            &&& player.position.z == record.last_z
            &&& player.rotation == record.last_rotation
            &&& player.is_official_npc == old(state).is_official_npc
            &&& old(state).client_kind matches Some(kind) ==> player.client_kind == kind
            &&& old(state).client_kind is None ==> player.client_kind == ClientKind::Other
        },
{
}

/// Loading a character decides about admin rights and about nothing else: they
/// take an eligible account and a role above zero. Without the character nothing
/// changes, and the client reads why.
pub proof fn law_loading_decides_admin_rights_only(
    state: &mut ConnectionState,
    character_id: i64,
    loaded: Result<CharacterRecord, String>,
    res: Action,
)
    requires
        call_ensures(character_loaded, (state, character_id, loaded), res),
    ensures
        final(state).client_ip == old(state).client_ip,
        final(state).clock == old(state).clock,
        final(state).client_kind == old(state).client_kind,
        final(state).must_close == old(state).must_close,
        final(state).account_name == old(state).account_name,
        final(state).player_id == old(state).player_id,
        final(state).character_name == old(state).character_name,
        final(state).pending_character_attributes == old(state).pending_character_attributes,
        final(state).connected_at == old(state).connected_at,
        final(state).last_heartbeat == old(state).last_heartbeat,
        final(state).is_official_npc == old(state).is_official_npc,
        final(state).admin_eligible == old(state).admin_eligible,
        loaded matches Ok(record) ==> final(state).is_admin == (old(state).admin_eligible
            && record.admin_role >= 1),
        loaded matches Err(text) ==> final(state).is_admin == old(state).is_admin && (
        res matches Action::Reply(replies) && {
            &&& replies@.len() == 1
            &&& replies@[0] matches ServerMessage::CharacterError { message }
            &&& message@ == text@
        }),
{
}

/// The character on its way into the game, whichever step it is at.
pub open spec fn on_its_way(action: Action, entering: Entering) -> bool {
    match action {
        Action::RehydrateDungeon { entering: e } => e == entering,
        Action::Register { entering: e, .. } => e == entering,
        _ => false,
    }
}

/// Restoring a saved character changes its health, floor, place and facing, and
/// nothing else: its maximum health, level, class, gender and all the rest are
/// those of the player that was created.
pub proof fn law_restoring_changes_nothing_else(
    character_id: i64,
    record: CharacterRecord,
    player: Player,
    floor: i8,
    spawn: SpawnPoint,
    entering: Entering,
    res: Action,
)
    requires
        call_ensures(player_created, (character_id, record, player, floor, spawn), res),
        on_its_way(res, entering),
    ensures
        entering.character_id == character_id,
        entering.record == record,
        entering.player.id == player.id,
        entering.player.name == player.name,
        entering.player.level == player.level,
        entering.player.max_health == player.max_health,
        entering.player.class == player.class,
        entering.player.gender == player.gender,
        entering.player.is_official_npc == player.is_official_npc,
        entering.player.torch_on == player.torch_on,
        entering.player.object_type == player.object_type,
        entering.player.object_id == player.object_id,
        entering.player.last_combat_at == player.last_combat_at,
        entering.player.client_kind == player.client_kind,
{
}

/// Saved health comes back: exactly, up to the record's maximum, and never above
/// it. Without saved health the player keeps the health it was created with.
pub proof fn law_saved_health_comes_back(
    character_id: i64,
    record: CharacterRecord,
    player: Player,
    floor: i8,
    spawn: SpawnPoint,
    entering: Entering,
    res: Action,
)
    requires
        call_ensures(player_created, (character_id, record, player, floor, spawn), res),
        on_its_way(res, entering),
    ensures
        record.health is None ==> entering.player.health == player.health,
        record.health matches Some(saved) ==> {
            &&& entering.player.health <= saved
            &&& entering.player.health <= record.max_hp
            &&& entering.player.health == saved || entering.player.health == record.max_hp
        },
{
}

/// The player comes back on the floor that is left of the saved one: where it
/// stood if the floor is the saved one, at the world spawn if it is not. A floor
/// below the surface has its dungeon primed before anything else; on any other the
/// player is registered at once.
pub proof fn law_player_comes_back_where_it_was(
    character_id: i64,
    record: CharacterRecord,
    player: Player,
    floor: i8,
    spawn: SpawnPoint,
    entering: Entering,
    res: Action,
)
    requires
        call_ensures(player_created, (character_id, record, player, floor, spawn), res),
        on_its_way(res, entering),
    ensures
        entering.player.floor_level == floor,
        floor == record.floor_level ==> entering.player.position == player.position
            && entering.player.rotation == player.rotation,
        floor != record.floor_level ==> entering.player.position == spawn.position
            && entering.player.rotation == spawn.rotation,
        floor <= -1 ==> res is RehydrateDungeon,
        floor >= 0 ==> res is Register,
{
}

/// Every restored character is on its way, to the dungeon or to the registration.
pub proof fn law_restored_character_goes_on(
    character_id: i64,
    record: CharacterRecord,
    player: Player,
    floor: i8,
    spawn: SpawnPoint,
    res: Action,
)
    requires
        call_ensures(player_created, (character_id, record, player, floor, spawn), res),
    ensures
        exists|entering: Entering| on_its_way(res, entering),
{
    if floor < 0 {
        assert(on_its_way(res, res->RehydrateDungeon_entering));
    } else {
        assert(on_its_way(res, res->Register_entering));
    }
}

/// A player whose dungeon is still there goes on as it was; one whose dungeon is
/// gone starts at the world spawn on the surface, and is otherwise the same.
pub proof fn law_lost_dungeon_leads_to_the_surface(
    entering: Entering,
    ok: bool,
    spawn: SpawnPoint,
    res: Action,
)
    requires
        call_ensures(dungeon_rehydrated, (entering, ok, spawn), res),
    ensures
        res matches Action::Register { entering: settled, .. } && {
            &&& settled.character_id == entering.character_id
            &&& settled.record == entering.record
            &&& ok ==> settled.player == entering.player
            &&& !ok ==> settled.player.position == spawn.position
            &&& !ok ==> settled.player.rotation == spawn.rotation
            &&& !ok ==> settled.player.floor_level == 0
            &&& settled.player.id == entering.player.id
            &&& settled.player.name == entering.player.name
            &&& settled.player.level == entering.player.level
            &&& settled.player.health == entering.player.health
            &&& settled.player.max_health == entering.player.max_health
            &&& settled.player.class == entering.player.class
            &&& settled.player.gender == entering.player.gender
            &&& settled.player.is_official_npc == entering.player.is_official_npc
            &&& settled.player.torch_on == entering.player.torch_on
            &&& settled.player.object_type == entering.player.object_type
            &&& settled.player.object_id == entering.player.object_id
            &&& settled.player.last_combat_at == entering.player.last_combat_at
            &&& settled.player.client_kind == entering.player.client_kind
        },
{
}

/// Registration opens the player's channel first, then makes the character known
/// with its experience, attributes and gold, then loads what belongs to it, the
/// inventory last; every step names the player and the character that enter.
pub proof fn law_registration_names_who_enters(
    entering: Entering,
    ok: bool,
    spawn: SpawnPoint,
    res: Action,
)
    requires
        call_ensures(dungeon_rehydrated, (entering, ok, spawn), res),
    ensures
        res matches Action::Register { steps, .. } && {
            &&& steps@.len() == 5
            &&& steps@[0] matches RegistrationStep::OpenDirectChannel { player }
            &&& player == entering.player.id
            &&& steps@[1] matches RegistrationStep::RegisterCharacter {
                player,
                character_id,
                xp,
                attributes,
                gold,
            }
            &&& player == entering.player.id
            &&& character_id == entering.character_id
            &&& xp == entering.record.xp
            &&& attributes == entering.record.attributes
            &&& gold == entering.record.gold
            &&& steps@[2] matches RegistrationStep::LoadBlockedNames { player, character_id }
            &&& player == entering.player.id
            &&& character_id == entering.character_id
            &&& steps@[3] matches RegistrationStep::LoadChestOpens { character_id }
            &&& character_id == entering.character_id
            &&& steps@[4] matches RegistrationStep::LoadInventory { player, character_id }
            &&& player == entering.player.id
            &&& character_id == entering.character_id
        },
{
}

/// Registered from the surface or after its dungeon was primed, the same character
/// goes through the same steps.
pub proof fn law_registration_is_the_same_either_way(
    character_id: i64,
    record: CharacterRecord,
    player: Player,
    floor: i8,
    spawn: SpawnPoint,
    entering: Entering,
    direct: Action,
    primed: Action,
)
    requires
        floor >= 0,
        call_ensures(player_created, (character_id, record, player, floor, spawn), direct),
        on_its_way(direct, entering),
        call_ensures(dungeon_rehydrated, (entering, true, spawn), primed),
    ensures
        direct matches Action::Register { steps, .. } && (primed matches Action::Register {
            steps: again,
            ..
        } && steps@ == again@),
{
}

/// The player goes into the world as it was registered, but for its torch: it is
/// lit exactly if the inventory says so. What the connection keeps is that player's
/// id, floor and place, and the character's name.
pub proof fn law_player_enters_the_world_as_registered(
    state: &ConnectionState,
    entering: Entering,
    facts: JoinFacts,
    res: Action,
)
    requires
        call_ensures(player_registered, (state, entering, facts), res),
    ensures
        res matches Action::AddPlayer { player, joined, replies } && {
            &&& player.torch_on == (facts.inventory is Some && facts.inventory->0.torch_lit)
            &&& player.id == entering.player.id
            &&& player.name == entering.player.name
            &&& player.position == entering.player.position
            &&& player.rotation == entering.player.rotation
            &&& player.level == entering.player.level
            &&& player.health == entering.player.health
            &&& player.max_health == entering.player.max_health
            &&& player.class == entering.player.class
            &&& player.gender == entering.player.gender
            &&& player.is_official_npc == entering.player.is_official_npc
            &&& player.floor_level == entering.player.floor_level
            &&& player.object_type == entering.player.object_type
            &&& player.object_id == entering.player.object_id
            &&& player.last_combat_at == entering.player.last_combat_at
            &&& player.client_kind == entering.player.client_kind
            &&& joined.player_id == entering.player.id
            &&& joined.character_name == entering.record.name
            &&& joined.floor_level == entering.player.floor_level
            &&& joined.position == entering.player.position
        },
{
}

/// The joining client is told, in this order: that it joined, as the player that
/// enters and with the rights of the connection; the time; the zones; its
/// inventory if it has one; its guard; the gold of its record; and last the notice
/// if there is one. Each is what the game says it is.
pub proof fn law_joining_client_is_told_everything(
    state: &ConnectionState,
    entering: Entering,
    facts: JoinFacts,
    res: Action,
)
    requires
        call_ensures(player_registered, (state, entering, facts), res),
    ensures
        res matches Action::AddPlayer { player: entrant, replies, .. } && {
            let carries: int = if facts.inventory is Some {
                1
            } else {
                0
            };
            let notices: int = if facts.notice is Some {
                1
            } else {
                0
            };
            &&& replies@.len() == 5 + carries + notices
            &&& replies@[0] matches ServerMessage::JoinSuccess { player, is_admin }
            &&& player == entrant
            &&& is_admin == state.is_admin
            &&& replies@[1] matches ServerMessage::GameTimeSync { datetime, is_night }
            &&& datetime == facts.datetime
            &&& is_night == facts.is_night
            &&& replies@[2] matches ServerMessage::NoSpawnZones { zones }
            &&& zones == facts.zones
            &&& facts.inventory matches Some(carried) ==> (
            replies@[3] matches ServerMessage::InventoryState { inventory } && inventory
                == carried.inventory)
            &&& replies@[3 + carries] matches ServerMessage::GuardUpdated { guard }
            &&& guard == facts.guard
            &&& replies@[4 + carries] matches ServerMessage::GoldUpdate { gold }
            &&& gold == entering.record.gold
            &&& facts.notice matches Some(notice) ==> (
            replies@.last() matches ServerMessage::ServerNotice { message } && message == Some(
                notice,
            ))
        },
{
}

/// Once in the world the connection is that player's and that character's, and is
/// otherwise unchanged; the replies go out as they were drawn up, the snapshot of
/// the surroundings last.
pub proof fn law_connection_becomes_the_players(
    state: &mut ConnectionState,
    joined: Joined,
    replies: Vec<ServerMessage>,
    snapshot: Option<ServerMessage>,
    res: Action,
)
    requires
        call_ensures(player_added, (state, joined, replies, snapshot), res),
    ensures
        final(state).player_id == Some(joined.player_id),
        final(state).character_name == Some(joined.character_name),
        final(state).client_ip == old(state).client_ip,
        final(state).clock == old(state).clock,
        final(state).client_kind == old(state).client_kind,
        final(state).must_close == old(state).must_close,
        final(state).account_name == old(state).account_name,
        final(state).pending_character_attributes == old(state).pending_character_attributes,
        final(state).connected_at == old(state).connected_at,
        final(state).last_heartbeat == old(state).last_heartbeat,
        final(state).is_official_npc == old(state).is_official_npc,
        final(state).admin_eligible == old(state).admin_eligible,
        final(state).is_admin == old(state).is_admin,
        res matches Action::Entered { replies: all, .. } && {
            &&& snapshot is None ==> all@ == replies@
            &&& snapshot matches Some(world) ==> all@.len() == replies@.len() + 1 && all@.last()
                == world
            &&& all@.take(replies@.len() as int) == replies@
        },
{
    if snapshot is Some {
        assert(replies@.push(snapshot->0).take(replies@.len() as int) =~= replies@);
    } else {
        assert(replies@.take(replies@.len() as int) =~= replies@);
    }
}

/// Who joins below the surface enters that floor from the surface, standing where
/// it stands; who joins on it enters no floor.
pub proof fn law_dungeon_floors_are_entered(
    state: &mut ConnectionState,
    joined: Joined,
    replies: Vec<ServerMessage>,
    snapshot: Option<ServerMessage>,
    res: Action,
)
    requires
        call_ensures(player_added, (state, joined, replies, snapshot), res),
    ensures
        res matches Action::Entered { floor_entry, .. } && {
            &&& joined.floor_level >= 0 ==> floor_entry is None
            &&& joined.floor_level <= -1 ==> (floor_entry matches Some(entry) && {
                &&& entry.player == joined.player_id
                &&& entry.from_floor == 0
                &&& entry.to_floor == joined.floor_level
                &&& entry.position == joined.position
            })
        },
{
}

} // verus!
