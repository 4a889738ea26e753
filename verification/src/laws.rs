//! What holds of a connection as a whole, whichever messages arrive and
//! whatever the outside work comes back with.

use crate::auth::{AuthContext, GoogleClaims};
use crate::channel::{login_overdue, served, ControlFrame, LoopEvent, LoopNext};
use crate::character::{CharacterAttributes, CharacterClass, CharacterRecord, Gender};
use crate::connection::{
    admin_only, auth_error, early_refusal, handshake, refusal_reason, version_refusal,
    ConnectionState,
};
use crate::entity::{ClientKind, Player, PlayerId};
use crate::game::GameCommand;
use crate::join::{join_replies, restored, with_character, JoinFacts, SpawnPoint};
use crate::messages::{ClientMessage, ServerMessage};
use crate::protocol::{CLOSE_CODE_PROTOCOL_MISMATCH, PROTOCOL_VERSION};
use crate::refusal::RefusalReason;
use crate::session::{
    answered, is_login, under_way, with_account, with_dev_login, with_google_login, Action,
    HitPointPurpose, Stage,
};
use crate::startup::{law_listed_addresses_are_solid, listed};
use crate::text::{pieces, same_ignoring_ascii_case, texts};
use vstd::prelude::*;

verus! {

/// `ClientInfo` comes first: before it, every other message is refused with one
/// login error, and the connection is marked to be closed.
pub proof fn law_nothing_passes_before_client_info(
    msg: ClientMessage,
    before: ConnectionState,
    after: ConnectionState,
    answer: Option<Seq<ServerMessage>>,
)
    requires
        handshake(msg, before, after, answer),
        !before.greeted(),
        !(msg is ClientInfo),
    ensures
        answer matches Some(replies) && auth_error(replies, early_refusal()),
        after.must_close,
        !after.greeted(),
{
}

/// The version is checked for exact equality: `ClientInfo` is accepted with this
/// server's version only, and refused with the reason otherwise.
pub proof fn law_only_this_version_is_greeted(
    protocol_version: u32,
    client_kind: String,
    client_version: String,
    before: ConnectionState,
    after: ConnectionState,
    answer: Option<Seq<ServerMessage>>,
)
    requires
        handshake(
            ClientMessage::ClientInfo { protocol_version, client_kind, client_version },
            before,
            after,
            answer,
        ),
        !before.greeted(),
    ensures
        after.greeted() <==> protocol_version == PROTOCOL_VERSION,
        protocol_version == PROTOCOL_VERSION ==> after.must_close == before.must_close,
        protocol_version != PROTOCOL_VERSION ==> after.must_close && (answer matches Some(replies)
            && auth_error(replies, version_refusal(protocol_version))),
{
}

/// Every refusal of the handshake gate has its reason, and the reason tells which
/// refusal it is: a wrong version is answered with the versions, an early message
/// with the request to come first with `ClientInfo`. Without a reason nothing is
/// refused.
pub proof fn law_refusals_have_their_reason(
    msg: ClientMessage,
    before: ConnectionState,
    after: ConnectionState,
    answer: Option<Seq<ServerMessage>>,
)
    requires
        handshake(msg, before, after, answer),
    ensures
        after.must_close == (before.must_close || refusal_reason(before, msg) is Some),
        match refusal_reason(before, msg) {
            Some(RefusalReason::WrongVersion) => {
                &&& msg matches ClientMessage::ClientInfo { protocol_version, .. }
                &&& answer matches Some(replies)
                &&& auth_error(replies, version_refusal(protocol_version))
            },
            Some(RefusalReason::EarlyMessage) => {
                &&& answer matches Some(replies)
                &&& auth_error(replies, early_refusal())
            },
            Some(RefusalReason::RateLimited) => false,
            None => answer matches Some(replies) ==> replies.len() == 0,
        },
{
}

/// Once a client is greeted the handshake changes nothing any more: a repeated
/// `ClientInfo` is ignored, and every other message goes through.
pub proof fn law_greeting_is_final(
    msg: ClientMessage,
    before: ConnectionState,
    after: ConnectionState,
    answer: Option<Seq<ServerMessage>>,
)
    requires
        handshake(msg, before, after, answer),
        before.greeted(),
    ensures
        after == before,
        answer is None <==> !(msg is ClientInfo),
        answer matches Some(replies) ==> replies.len() == 0,
{
}

/// After an accepted `ClientInfo` the next message, if it is another one, passes
/// the handshake.
pub proof fn law_greeted_client_gets_through(
    info: ClientMessage,
    next: ClientMessage,
    fresh: ConnectionState,
    greeted: ConnectionState,
    after: ConnectionState,
    first: Option<Seq<ServerMessage>>,
    second: Option<Seq<ServerMessage>>,
)
    requires
        !fresh.greeted(),
        info matches ClientMessage::ClientInfo { protocol_version, .. } && protocol_version
            == PROTOCOL_VERSION,
        !(next is ClientInfo),
        handshake(info, fresh, greeted, first),
        handshake(next, greeted, after, second),
    ensures
        first == Some(Seq::<ServerMessage>::empty()),
        second is None,
        after == greeted,
{
}

/// A refused handshake ends the connection: the refusal goes out, and then a
/// close frame with the code that tells a stale client to stop reconnecting.
pub proof fn law_refused_handshake_is_closed(
    msg: ClientMessage,
    before: ConnectionState,
    after: ConnectionState,
    replies: Seq<ServerMessage>,
    count: nat,
    frames: Seq<ControlFrame>,
    next: LoopNext,
)
    requires
        !before.greeted(),
        handshake(msg, before, after, Some(replies)),
        !after.greeted(),
        served(after, count, LoopEvent::Answered, frames, next),
    ensures
        replies.len() == 1 && replies[0] is AuthError,
        next == LoopNext::End,
        frames.len() == 1,
        frames[0].closes_with(CLOSE_CODE_PROTOCOL_MISMATCH, "protocol mismatch"@),
{
}

/// A greeted connection is not closed for anything its client asks for: no
/// message marks it to be closed.
pub proof fn law_greeted_client_is_not_closed(
    before: ConnectionState,
    msg: ClientMessage,
    ctx: AuthContext,
    now: u128,
    after: ConnectionState,
    action: Action,
)
    requires
        before.greeted(),
        !before.must_close,
        answered(before, msg, ctx, now, after, action),
    ensures
        !after.must_close,
        after.greeted(),
{
}

/// A message leads only to work that belongs to the stage the connection is in.
pub proof fn law_work_fits_the_stage(
    before: ConnectionState,
    msg: ClientMessage,
    ctx: AuthContext,
    now: u128,
    after: ConnectionState,
    action: Action,
)
    requires
        before.coherent(),
        answered(before, msg, ctx, now, after, action),
    ensures
        under_way(after, action.stage()),
{
}

/// A client without an account can do nothing but introduce itself and log in.
pub proof fn law_login_comes_first(
    before: ConnectionState,
    msg: ClientMessage,
    ctx: AuthContext,
    now: u128,
    after: ConnectionState,
    action: Action,
)
    requires
        before.coherent(),
        !before.authenticated(),
        answered(before, msg, ctx, now, after, action),
    ensures
        action.stays_in(Stage::LoggingIn),
        action.stage() == Stage::LoggingIn ==> is_login(msg),
        !after.authenticated(),
        !after.in_game(),
        !after.is_admin,
{
}

/// Without a character in game nothing is asked of the running game.
pub proof fn law_game_is_for_players(
    before: ConnectionState,
    msg: ClientMessage,
    ctx: AuthContext,
    now: u128,
    after: ConnectionState,
    action: Action,
)
    requires
        !before.in_game(),
        answered(before, msg, ctx, now, after, action),
    ensures
        action.stage() != Stage::Playing,
{
}

/// The player a request to the running game is made for, if it names one.
pub open spec fn on_behalf_of(action: Action) -> Option<PlayerId> {
    match action {
        Action::Game(command) => match command {
            GameCommand::UpdatePlayerPosition { player, .. } => Some(player),
            GameCommand::UpdatePlayerFloor { player, .. } => Some(player),
            GameCommand::SendChatMessage { player, .. } => Some(player),
            GameCommand::UpdateMonsterPosition { player, .. } => Some(player),
            GameCommand::PlayerAttack { player, .. } => Some(player),
            GameCommand::MonsterAttack { player, .. } => Some(player),
            GameCommand::Respawn { player } => Some(player),
            GameCommand::OpenDungeonChest { player, .. } => Some(player),
            GameCommand::BreakDungeonProp { player, .. } => Some(player),
            GameCommand::OpenDungeonProp { player, .. } => Some(player),
            GameCommand::PublishDungeonDoor { player, .. } => Some(player),
            GameCommand::SendDirect { player, .. } => Some(player),
            GameCommand::SendNearby { .. } => None,
            GameCommand::Teleport { player, .. } => Some(player),
            GameCommand::DebugDropItem { player, .. } => Some(player),
            GameCommand::DebugSetTime { .. } => None,
            GameCommand::DebugResetDungeonProps { .. } => None,
            GameCommand::SetTorch { player, .. } => Some(player),
            GameCommand::SetInteraction { player, .. } => Some(player),
            GameCommand::EquipItem { player, .. } => Some(player),
            GameCommand::UnequipItem { player, .. } => Some(player),
            GameCommand::DropItem { player, .. } => Some(player),
            GameCommand::PickupAnimation { player } => Some(player),
            GameCommand::PickupItem { player, .. } => Some(player),
            GameCommand::UseItem { player, .. } => Some(player),
            GameCommand::OpenShop { player, .. } => Some(player),
            GameCommand::CloseShop { player, .. } => Some(player),
            GameCommand::BuyItem { player, .. } => Some(player),
            GameCommand::SellItem { player, .. } => Some(player),
            GameCommand::BuybackItem { player, .. } => Some(player),
            GameCommand::OfferDeal { player, .. } => Some(player),
            GameCommand::OpenTrade { player, .. } => Some(player),
        },
        Action::ValidateSpawn { player, .. } => Some(player),
        Action::SpawnMonster { player, .. } => Some(player),
        Action::ToggleDungeonDoor { player, .. } => Some(player),
        Action::ListDungeonDoors { player, .. } => Some(player),
        Action::LocateForTeleport { player, .. } => Some(player),
        Action::ToggleHouseDoor { player, .. } => Some(player),
        Action::LocateForDoor { player, .. } => Some(player),
        _ => None,
    }
}

/// A client acts for its own player only: whatever ids a message carries, the
/// request it leads to is made in the name of the connection's player.
pub proof fn law_clients_act_for_themselves(
    before: ConnectionState,
    msg: ClientMessage,
    ctx: AuthContext,
    now: u128,
    after: ConnectionState,
    action: Action,
)
    requires
        answered(before, msg, ctx, now, after, action),
        on_behalf_of(action) is Some,
    ensures
        on_behalf_of(action) == before.player_id,
{
}

/// No message by itself changes who a connection is: its account, its player
/// and its rights are what they were. Those change with the outcome of a login
/// or of entering the game.
pub proof fn law_messages_keep_the_identity(
    before: ConnectionState,
    msg: ClientMessage,
    ctx: AuthContext,
    now: u128,
    after: ConnectionState,
    action: Action,
)
    requires
        answered(before, msg, ctx, now, after, action),
    ensures
        after.client_ip == before.client_ip,
        after.account_name == before.account_name,
        after.player_id == before.player_id,
        after.character_name == before.character_name,
        after.is_official_npc == before.is_official_npc,
        after.admin_eligible == before.admin_eligible,
        after.is_admin == before.is_admin,
        after.connected_at == before.connected_at,
{
}

/// A second login on one connection is refused, whichever way it is tried.
pub proof fn law_one_login_per_connection(
    before: ConnectionState,
    msg: ClientMessage,
    ctx: AuthContext,
    now: u128,
    after: ConnectionState,
    action: Action,
)
    requires
        before.coherent(),
        before.authenticated(),
        is_login(msg),
        answered(before, msg, ctx, now, after, action),
    ensures
        action.refuses_auth("Already authenticated"@),
        after == before,
{
}

/// Debug and cheat messages of a connection that is not admin have no effect:
/// they change nothing and ask nothing of the running game.
pub proof fn law_cheats_are_for_admins(
    before: ConnectionState,
    msg: ClientMessage,
    ctx: AuthContext,
    now: u128,
    after: ConnectionState,
    action: Action,
)
    requires
        before.greeted(),
        !before.is_admin,
        admin_only(msg),
        answered(before, msg, ctx, now, after, action),
    ensures
        action.stage() == Stage::Answered,
        after == before,
{
}

/// An NPC login needs the shared token, letter for letter.
pub proof fn law_npc_login_needs_the_token(
    before: ConnectionState,
    account_name: String,
    npc_token: String,
    ctx: AuthContext,
    now: u128,
    after: ConnectionState,
    action: Action,
)
    requires
        before.greeted(),
        !before.authenticated(),
        answered(
            before,
            ClientMessage::AuthenticateNpc { account_name, npc_token },
            ctx,
            now,
            after,
            action,
        ),
    ensures
        action == (Action::LoginNpc { account_name }) <==> npc_token@ == ctx.npc_token@,
{
}

/// A dev login needs the server to allow it and a client on the same machine.
pub proof fn law_dev_login_is_local(
    before: ConnectionState,
    account_name: String,
    ctx: AuthContext,
    now: u128,
    after: ConnectionState,
    action: Action,
)
    requires
        before.greeted(),
        !before.authenticated(),
        answered(
            before,
            ClientMessage::AuthenticateDev { account_name },
            ctx,
            now,
            after,
            action,
        ),
    ensures
        action == (Action::LoginDev { account_name }) <==> ctx.dev_auth
            && before.client_ip.loopback(),
{
}

/// Merchants and guards are for operator-run characters: another client can
/// neither roll nor create one.
pub proof fn law_operator_classes_are_refused(
    before: ConnectionState,
    msg: ClientMessage,
    ctx: AuthContext,
    now: u128,
    after: ConnectionState,
    action: Action,
)
    requires
        before.greeted(),
        !before.is_official_npc,
        match msg {
            ClientMessage::CreateCharacter { character_class, .. } => !character_class.selectable(),
            ClientMessage::RollCharacterStats { character_class, .. } =>
                !character_class.selectable(),
            _ => false,
        },
        answered(before, msg, ctx, now, after, action),
    ensures
        action matches Action::Reply(replies) && replies@.len() == 1
            && replies@[0] is CharacterError,
        after == before,
{
}

/// A character is made of the attributes that were rolled last: after a roll,
/// the next creation on this connection stores exactly those, with the name, class
/// and gender of the request, and asks for the hit points that go with them.
pub proof fn law_creation_uses_the_roll(
    rolled: ConnectionState,
    attributes: CharacterAttributes,
    character_name: String,
    character_class: CharacterClass,
    gender: Gender,
    ctx: AuthContext,
    now: u128,
    after: ConnectionState,
    action: Action,
)
    requires
        under_way(rolled, Stage::ChoosingCharacter),
        rolled.may_play(character_class),
        rolled.pending_character_attributes == Some(attributes),
        answered(
            rolled,
            ClientMessage::CreateCharacter { character_name, character_class, gender },
            ctx,
            now,
            after,
            action,
        ),
    ensures
        action matches Action::ResolveHitPoints { query, purpose } && query.class == character_class
            && query.con == attributes.con && (purpose matches HitPointPurpose::Create(
            character,
        ) && character.attributes == attributes && character.character_name == character_name
            && character.character_class == character_class && character.gender == gender
            && character.account_name == rolled.account_name->0),
{
}

/// A roll makes one character: without a roll since the last creation, or since
/// the login, a creation is refused.
pub proof fn law_creation_needs_a_roll(
    before: ConnectionState,
    character_name: String,
    character_class: CharacterClass,
    gender: Gender,
    ctx: AuthContext,
    now: u128,
    after: ConnectionState,
    action: Action,
)
    requires
        before.greeted(),
        before.pending_character_attributes is None,
        answered(
            before,
            ClientMessage::CreateCharacter { character_name, character_class, gender },
            ctx,
            now,
            after,
            action,
        ),
    ensures
        action.stage() == Stage::Answered,
        under_way(before, Stage::ChoosingCharacter) && before.may_play(character_class)
            ==> action.refuses_character("Roll attributes first"@),
{
}

/// A restored character has at most its maximum health if any was saved, and
/// stands where it was saved unless its floor is out of range; the rest of it is
/// as it was created.
pub proof fn law_restored_character(
    player: Player,
    record: CharacterRecord,
    floor: i8,
    spawn: SpawnPoint,
)
    ensures
        ({
            let back = restored(player, record, floor, spawn);
            &&& record.health is Some ==> back.health <= record.max_hp
            &&& record.health matches Some(saved) ==> (saved <= record.max_hp ==> back.health
                == saved)
            &&& back.floor_level == floor
            &&& floor == record.floor_level ==> back.position == player.position && back.rotation
                == player.rotation
            &&& floor != record.floor_level ==> back.position == spawn.position && back.rotation
                == spawn.rotation
            &&& back.id == player.id && back.name == player.name && back.level == player.level
            &&& back.max_health == player.max_health
            &&& back.class == player.class && back.gender == player.gender
            &&& back.is_official_npc == player.is_official_npc
            &&& back.client_kind == player.client_kind
            &&& back.torch_on == player.torch_on && back.last_combat_at == player.last_combat_at
            &&& back.object_type == player.object_type && back.object_id == player.object_id
        }),
{
}

/// A joining client is told of its join first, and exactly once of everything
/// there is to tell.
pub proof fn law_join_replies(player: Player, is_admin: bool, facts: JoinFacts, gold: i64)
    ensures
        ({
            let replies = join_replies(player, is_admin, facts, gold);
            &&& replies[0] == (ServerMessage::JoinSuccess { player, is_admin })
            &&& replies.len() == 5 + (if facts.inventory is Some {
                1int
            } else {
                0
            }) + (if facts.notice is Some {
                1int
            } else {
                0
            })
        }),
{
}

/// Admin rights take all of it: a verified email on the allowlist at the Google
/// login, and a character with an admin role on entry.
pub proof fn law_admin_needs_allowlist_and_role(
    before: ConnectionState,
    ctx: AuthContext,
    claims: GoogleClaims,
    account_name: String,
    record: CharacterRecord,
)
    ensures
        with_character(
            with_account(with_google_login(before, ctx, claims), account_name, false),
            record,
        ).is_admin <==> ctx.admits(claims) && record.admin_role > 0,
{
}

/// A dev login never leads to admin rights, whatever the character's role.
pub proof fn law_dev_login_is_never_admin(
    before: ConnectionState,
    account_name: String,
    record: CharacterRecord,
)
    ensures
        !with_character(
            with_account(with_dev_login(before), account_name, false),
            record,
        ).is_admin,
{
}

/// An NPC login never leads to admin rights, whatever login was tried on the
/// connection before and whatever the character's role.
pub proof fn law_npc_login_adds_no_admin_rights(
    before: ConnectionState,
    account_name: String,
    record: CharacterRecord,
)
    ensures
        !with_account(before, account_name, true).admin_eligible,
        !with_character(with_account(before, account_name, true), record).is_admin,
{
}

/// At no time in its life is the connection of an NPC account admin.
pub proof fn law_npcs_are_never_admin(state: ConnectionState)
    requires
        state.coherent(),
        state.is_official_npc,
    ensures
        !state.admin_eligible,
        !state.is_admin,
{
}

/// A sign-in without an address in it never counts as admin, as long as the
/// allowlist was read from the operator's setting.
pub proof fn law_blank_address_is_no_admin(ctx: AuthContext, setting: Seq<char>, claims: GoogleClaims)
    requires
        texts(ctx.admin_emails@) == listed(pieces(setting, ',')),
        claims.email matches Some(email) ==> email@.len() == 0,
    ensures
        !ctx.admits(claims),
{
    if ctx.admits(claims) {
        let email = claims.email->0@;
        let i = choose|i: int|
            0 <= i < ctx.admin_emails@.len() && same_ignoring_ascii_case(
                #[trigger] ctx.admin_emails@[i]@,
                email,
            );
        assert(texts(ctx.admin_emails@)[i] == ctx.admin_emails@[i]@);
        law_listed_addresses_are_solid(pieces(setting, ','), i);
    }
}

/// The time to log in runs from the moment of connecting: no message moves it, a
/// heartbeat included.
pub proof fn law_messages_do_not_buy_time_to_log_in(
    before: ConnectionState,
    msg: ClientMessage,
    ctx: AuthContext,
    now: u128,
    after: ConnectionState,
    action: Action,
    later: u128,
)
    requires
        answered(before, msg, ctx, now, after, action),
    ensures
        login_overdue(after, later) == login_overdue(before, later),
{
}

/// The kind of program a client reports decides nothing: of two connections that
/// differ in it alone, the same message makes the same.
pub proof fn law_client_kind_decides_nothing(
    one: ConnectionState,
    kind: ClientKind,
    msg: ClientMessage,
    ctx: AuthContext,
    now: u128,
    after_one: ConnectionState,
    action_one: Action,
    after_other: ConnectionState,
    action_other: Action,
)
    requires
        one.greeted(),
        answered(one, msg, ctx, now, after_one, action_one),
        answered(
            ConnectionState { client_kind: Some(kind), ..one },
            msg,
            ctx,
            now,
            after_other,
            action_other,
        ),
    ensures
        after_other == (ConnectionState { client_kind: Some(kind), ..after_one }),
        action_other.stage() == action_one.stage(),
        action_one.stage() != Stage::Answered ==> action_other == action_one,
{
}

} // verus!
