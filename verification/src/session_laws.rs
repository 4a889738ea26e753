//! What a client's messages do to its connection and what it is answered, and
//! what the outcome of a login or of a character request does.

use crate::address::ClientIp;
use crate::auth::{AuthContext, GoogleClaims};
use crate::character::{
    Character, CharacterAttributes, CharacterClass, CharacterRecord, Gender,
};
use crate::connection::{
    handle_handshake, handshake_refusal, requires_admin, ConnectionState,
};
use crate::entity::ClientKind;
use crate::game::GameCommand;
use crate::messages::{ClientMessage, ServerMessage};
use crate::refusal::RefusalReason;
use crate::session::{
    attributes_rolled, character_deleted, character_stored, dev_logged_in, finish_auth,
    google_logged_in, google_verified, handle_client_message, hit_points_resolved, npc_logged_in,
    Action, HitPointPurpose, NewCharacter,
};
use crate::text::{decimal, same_ignoring_ascii_case};
use crate::text_laws::{lemma_texts_alike, texts_alike};
use vstd::prelude::*;

verus! {

/// No message of a greeted client changes anything the server remembers of it, but
/// for a heartbeat, which is remembered with the moment it came.
pub proof fn law_messages_change_only_the_heartbeat(
    conn: &mut ConnectionState,
    msg: ClientMessage,
    ctx: &AuthContext,
    now: u128,
    res: Action,
)
    requires
        call_ensures(handle_client_message, (conn, msg, ctx, now), res),
        old(conn).client_kind is Some,
    ensures
        final(conn).last_heartbeat == (if msg is Heartbeat {
            now
        } else {
            old(conn).last_heartbeat
        }),
        final(conn).client_ip == old(conn).client_ip,
        final(conn).clock == old(conn).clock,
        final(conn).client_kind == old(conn).client_kind,
        final(conn).must_close == old(conn).must_close,
        final(conn).account_name == old(conn).account_name,
        final(conn).player_id == old(conn).player_id,
        final(conn).character_name == old(conn).character_name,
        final(conn).pending_character_attributes == old(conn).pending_character_attributes,
        final(conn).connected_at == old(conn).connected_at,
        final(conn).is_official_npc == old(conn).is_official_npc,
        final(conn).admin_eligible == old(conn).admin_eligible,
        final(conn).is_admin == old(conn).is_admin,
        msg is Heartbeat ==> res is Done,
        msg is ClientInfo ==> (res matches Action::Reply(replies) && replies@.len() == 0),
{
}

/// Only the four debug messages, `/give` lines and `/notice` lines are for admins:
/// a message counts as one of those exactly if it is one.
pub proof fn law_only_cheats_require_an_admin(msg: &ClientMessage, res: bool)
    requires
        call_ensures(requires_admin, (msg,), res),
    ensures
        res == match *msg {
            ClientMessage::DebugTeleport { .. } => true,
            ClientMessage::DebugDropItem { .. } => true,
            ClientMessage::DebugSetTime { .. } => true,
            ClientMessage::DebugResetDungeonProps { .. } => true,
            ClientMessage::ChatMessage { message } => "/give "@.is_prefix_of(message@) || message@
                == "/notice"@ || "/notice "@.is_prefix_of(message@),
            _ => false,
        },
{
}

/// Whatever else a player sends, admin or not, is never answered with "Admin
/// only": it is not held back for want of rights.
pub proof fn law_players_are_not_held_back(
    conn: &mut ConnectionState,
    msg: ClientMessage,
    ctx: &AuthContext,
    now: u128,
    res: Action,
)
    requires
        call_ensures(handle_client_message, (conn, msg, ctx, now), res),
        old(conn).client_kind is Some,
        old(conn).player_id is Some,
        match msg {
            ClientMessage::DebugTeleport { .. } => false,
            ClientMessage::DebugDropItem { .. } => false,
            ClientMessage::DebugSetTime { .. } => false,
            ClientMessage::DebugResetDungeonProps { .. } => false,
            ClientMessage::ChatMessage { message } => !"/give "@.is_prefix_of(message@) && message@
                != "/notice"@ && !"/notice "@.is_prefix_of(message@),
            _ => true,
        },
    ensures
        res matches Action::Reply(replies) ==> forall|i: int|
            0 <= i < replies@.len() ==> !(#[trigger] replies@[i] is SystemMessage),
        msg matches ClientMessage::PlayerAttack { monster_id } ==> (res matches Action::Game(
            GameCommand::PlayerAttack { player, monster_id: target },
        ) && old(conn).player_id == Some(player) && target == monster_id),
{
}

/// Every message about the running game reaches it, whoever the player is: nothing
/// of the kind is swallowed or answered by the connection. The messages that admins
/// alone may send do so for an admin.
pub proof fn law_game_messages_reach_the_game(
    conn: &mut ConnectionState,
    msg: ClientMessage,
    ctx: &AuthContext,
    now: u128,
    res: Action,
)
    requires
        call_ensures(handle_client_message, (conn, msg, ctx, now), res),
        old(conn).client_kind is Some,
        old(conn).player_id is Some,
        old(conn).is_admin || match msg {
            ClientMessage::DebugTeleport { .. } => false,
            ClientMessage::DebugDropItem { .. } => false,
            ClientMessage::DebugSetTime { .. } => false,
            ClientMessage::DebugResetDungeonProps { .. } => false,
            ClientMessage::ChatMessage { message } => !"/give "@.is_prefix_of(message@) && message@
                != "/notice"@ && !"/notice "@.is_prefix_of(message@),
            _ => true,
        },
        !(msg is ClientInfo),
        !(msg is Authenticate),
        !(msg is AuthenticateNpc),
        !(msg is AuthenticateDev),
        !(msg is CreateCharacter),
        !(msg is RollCharacterStats),
        !(msg is DeleteCharacter),
        !(msg is EnterGame),
        !(msg is Heartbeat),
        !(msg is PlaceHouse),
        !(msg is ModifyRoom),
        !(msg is RemoveHouse),
    ensures
        !(res is Done),
        !(res is Reply),
{
}

/// From a player who is no admin, a message for admins is answered with "Admin
/// only" and nothing comes of it; from a client without a player it is dropped.
pub proof fn law_cheats_of_others_are_answered(
    conn: &mut ConnectionState,
    msg: ClientMessage,
    ctx: &AuthContext,
    now: u128,
    res: Action,
)
    requires
        call_ensures(handle_client_message, (conn, msg, ctx, now), res),
        old(conn).client_kind is Some,
        !old(conn).is_admin,
        match msg {
            ClientMessage::DebugTeleport { .. } => true,
            ClientMessage::DebugDropItem { .. } => true,
            ClientMessage::DebugSetTime { .. } => true,
            ClientMessage::DebugResetDungeonProps { .. } => true,
            ClientMessage::ChatMessage { message } => "/give "@.is_prefix_of(message@) || message@
                == "/notice"@ || "/notice "@.is_prefix_of(message@),
            _ => false,
        },
    ensures
        old(conn).player_id is None ==> res is Done,
        old(conn).player_id is Some ==> (res matches Action::Reply(replies) && {
            &&& replies@.len() == 1
            &&& replies@[0] matches ServerMessage::SystemMessage { message }
            &&& message@ == "Admin only"@
        }),
{
}

/// From a client without a player in game, a message about the running game is
/// dropped without an answer.
pub proof fn law_without_a_player_nothing_is_asked(
    conn: &mut ConnectionState,
    msg: ClientMessage,
    ctx: &AuthContext,
    now: u128,
    res: Action,
)
    requires
        call_ensures(handle_client_message, (conn, msg, ctx, now), res),
        old(conn).client_kind is Some,
        old(conn).player_id is None,
        !(msg is ClientInfo),
        !(msg is Authenticate),
        !(msg is AuthenticateNpc),
        !(msg is AuthenticateDev),
        !(msg is CreateCharacter),
        !(msg is RollCharacterStats),
        !(msg is DeleteCharacter),
        !(msg is EnterGame),
    ensures
        res is Done,
{
}

/// Once logged in, any other login is refused and nothing is looked up.
pub proof fn law_second_login_is_refused(
    conn: &mut ConnectionState,
    msg: ClientMessage,
    ctx: &AuthContext,
    now: u128,
    res: Action,
)
    requires
        call_ensures(handle_client_message, (conn, msg, ctx, now), res),
        old(conn).client_kind is Some,
        old(conn).account_name is Some,
        msg is Authenticate || msg is AuthenticateNpc || msg is AuthenticateDev,
    ensures
        res matches Action::Reply(replies) && {
            &&& replies@.len() == 1
            &&& replies@[0] matches ServerMessage::AuthError { message }
            &&& message@ == "Already authenticated"@
        },
{
}

/// A Google login verifies the very token that was sent, unless the server accepts
/// no Google sign-ins, which the client is told.
pub proof fn law_google_login_verifies_the_token(
    conn: &mut ConnectionState,
    google_id_token: String,
    ctx: &AuthContext,
    now: u128,
    res: Action,
)
    requires
        call_ensures(
            handle_client_message,
            (conn, ClientMessage::Authenticate { google_id_token }, ctx, now),
            res,
        ),
        old(conn).client_kind is Some,
        old(conn).account_name is None,
    ensures
        ctx.google is Some ==> (res matches Action::VerifyGoogleToken { google_id_token: token }
            && token == google_id_token),
        ctx.google is None ==> (res matches Action::Reply(replies) && {
            &&& replies@.len() == 1
            &&& replies@[0] matches ServerMessage::AuthError { message }
            &&& message@ == "Google sign-in is not configured on this server"@
        }),
{
}

/// An NPC login looks up the account that was named if the token is the server's,
/// letter for letter, and is refused otherwise.
pub proof fn law_npc_login_takes_the_token(
    conn: &mut ConnectionState,
    account_name: String,
    npc_token: String,
    ctx: &AuthContext,
    now: u128,
    res: Action,
)
    requires
        call_ensures(
            handle_client_message,
            (conn, ClientMessage::AuthenticateNpc { account_name, npc_token }, ctx, now),
            res,
        ),
        old(conn).client_kind is Some,
        old(conn).account_name is None,
    ensures
        npc_token@ == ctx.npc_token@ ==> (res matches Action::LoginNpc { account_name: named }
            && named == account_name),
        npc_token@ != ctx.npc_token@ ==> (res matches Action::Reply(replies) && {
            &&& replies@.len() == 1
            &&& replies@[0] matches ServerMessage::AuthError { message }
            &&& message@ == "Invalid NPC token"@
        }),
{
}

/// A dev login looks up the account that was named if the server allows dev logins
/// and the client is on the same machine; otherwise it is told which of the two is
/// missing.
pub proof fn law_dev_login_takes_permission_and_nearness(
    conn: &mut ConnectionState,
    account_name: String,
    ctx: &AuthContext,
    now: u128,
    res: Action,
)
    requires
        call_ensures(
            handle_client_message,
            (conn, ClientMessage::AuthenticateDev { account_name }, ctx, now),
            res,
        ),
        old(conn).client_kind is Some,
        old(conn).account_name is None,
    ensures
        ({
            let near = match old(conn).client_ip {
                ClientIp::V4(octets) => octets@[0] == 127,
                ClientIp::V6(segments) => segments@ == seq![0u16, 0, 0, 0, 0, 0, 0, 1],
            };
            &&& ctx.dev_auth && near ==> (res matches Action::LoginDev { account_name: named }
                && named == account_name)
            &&& !ctx.dev_auth ==> (res matches Action::Reply(replies) && {
                &&& replies@.len() == 1
                &&& replies@[0] matches ServerMessage::AuthError { message }
                &&& message@ == "Dev login is not enabled on this server"@
            })
            &&& ctx.dev_auth && !near ==> (res matches Action::Reply(replies) && {
                &&& replies@.len() == 1
                &&& replies@[0] matches ServerMessage::AuthError { message }
                &&& message@ == "Dev login is only allowed from localhost"@
            })
        }),
{
    match old(conn).client_ip {
        ClientIp::V4(_) => {},
        ClientIp::V6(segments) => {
            let one = seq![0u16, 0, 0, 0, 0, 0, 0, 1];
            if segments@[7] == 1 && forall|i: int| 0 <= i < 7 ==> segments@[i] == 0 {
                assert(segments@ =~= one);
            }
            if segments@ == one {
                assert forall|i: int| 0 <= i < 7 implies segments@[i] == 0 by {
                    assert(one[i] == 0);
                }
            }
        },
    }
}

/// In game no character is created, deleted or rolled, and none is entered: the
/// first three are refused by name, entering is ignored.
pub proof fn law_characters_wait_while_in_game(
    conn: &mut ConnectionState,
    msg: ClientMessage,
    ctx: &AuthContext,
    now: u128,
    res: Action,
)
    requires
        call_ensures(handle_client_message, (conn, msg, ctx, now), res),
        old(conn).client_kind is Some,
        old(conn).player_id is Some,
    ensures
        msg is CreateCharacter ==> (res matches Action::Reply(replies) && {
            &&& replies@.len() == 1
            &&& replies@[0] matches ServerMessage::CharacterError { message }
            &&& message@ == "Cannot "@ + "CreateCharacter"@ + " while in game"@
        }),
        msg is DeleteCharacter ==> (res matches Action::Reply(replies) && {
            &&& replies@.len() == 1
            &&& replies@[0] matches ServerMessage::CharacterError { message }
            &&& message@ == "Cannot "@ + "DeleteCharacter"@ + " while in game"@
        }),
        msg is RollCharacterStats ==> (res matches Action::Reply(replies) && {
            &&& replies@.len() == 1
            &&& replies@[0] matches ServerMessage::CharacterError { message }
            &&& message@ == "Cannot "@ + "RollCharacterStats"@ + " while in game"@
        }),
        msg is EnterGame ==> res is Done,
{
}

/// Without an account nothing about characters is done, and the client is told to
/// log in.
pub proof fn law_characters_need_an_account(
    conn: &mut ConnectionState,
    msg: ClientMessage,
    ctx: &AuthContext,
    now: u128,
    res: Action,
)
    requires
        call_ensures(handle_client_message, (conn, msg, ctx, now), res),
        old(conn).client_kind is Some,
        old(conn).player_id is None,
        old(conn).account_name is None,
        msg is CreateCharacter || msg is DeleteCharacter || msg is RollCharacterStats
            || msg is EnterGame,
    ensures
        res matches Action::Reply(replies) && {
            &&& replies@.len() == 1
            &&& replies@[0] matches ServerMessage::CharacterError { message }
            &&& message@ == "Authenticate first"@
        },
{
}

/// A logged-in client without a player gets what it asks for of its own account:
/// the deletion and the entry of the character it names.
pub proof fn law_own_characters_are_deleted_and_entered(
    conn: &mut ConnectionState,
    msg: ClientMessage,
    account: String,
    ctx: &AuthContext,
    now: u128,
    res: Action,
)
    requires
        call_ensures(handle_client_message, (conn, msg, ctx, now), res),
        old(conn).client_kind is Some,
        old(conn).player_id is None,
        old(conn).account_name == Some(account),
    ensures
        msg matches ClientMessage::DeleteCharacter { character_id } ==> (
        res matches Action::DeleteCharacter { account_name, character_id: id } && account_name
            == account && id == character_id),
        msg matches ClientMessage::EnterGame { character_id } ==> (
        res matches Action::LoadCharacter { account_name, character_id: id } && account_name
            == account && id == character_id),
{
}

/// Merchants and guards are refused to everyone but operators, by name; every
/// other class is rolled as it was asked for, and so are those two for operators.
pub proof fn law_rolls_are_for_the_class_asked_for(
    conn: &mut ConnectionState,
    character_class: CharacterClass,
    gender: Gender,
    ctx: &AuthContext,
    now: u128,
    res: Action,
)
    requires
        call_ensures(
            handle_client_message,
            (conn, ClientMessage::RollCharacterStats { character_class, gender }, ctx, now),
            res,
        ),
        old(conn).client_kind is Some,
        old(conn).player_id is None,
        old(conn).account_name is Some,
    ensures
        ({
            let reserved = character_class is Merchant || character_class is Guard;
            &&& old(conn).is_official_npc || !reserved ==> (res matches Action::RollAttributes {
                character_class: class,
                gender: of,
            } && class == character_class && of == gender)
            &&& !old(conn).is_official_npc && reserved ==> (res matches Action::Reply(replies) && {
                &&& replies@.len() == 1
                &&& replies@[0] matches ServerMessage::CharacterError { message }
                &&& message@ == "The "@ + (if character_class is Merchant {
                    "merchant"@
                } else {
                    "guard"@
                }) + " class is not available"@
            })
        }),
{
}

/// A creation makes the character that was asked for out of the attributes rolled
/// last: the name, class and gender of the message, the account of the connection,
/// and hit points asked for by that class and the rolled constitution. Without a
/// roll, or for a reserved class, it is refused.
pub proof fn law_creation_makes_what_was_asked_for(
    conn: &mut ConnectionState,
    character_name: String,
    character_class: CharacterClass,
    gender: Gender,
    ctx: &AuthContext,
    now: u128,
    res: Action,
)
    requires
        call_ensures(
            handle_client_message,
            (
                conn,
                ClientMessage::CreateCharacter { character_name, character_class, gender },
                ctx,
                now,
            ),
            res,
        ),
        old(conn).client_kind is Some,
        old(conn).player_id is None,
        old(conn).account_name is Some,
    ensures
        ({
            let reserved = character_class is Merchant || character_class is Guard;
            let allowed = old(conn).is_official_npc || !reserved;
            &&& allowed ==> match old(conn).pending_character_attributes {
                Some(rolled) => {
                    &&& res matches Action::ResolveHitPoints { query, purpose }
                    &&& query.class == character_class
                    &&& query.con == rolled.con
                    &&& purpose matches HitPointPurpose::Create(character)
                    &&& character.character_name == character_name
                    &&& character.character_class == character_class
                    &&& character.gender == gender
                    &&& character.attributes == rolled
                    &&& old(conn).account_name == Some(character.account_name)
                },
                None => (res matches Action::Reply(replies) && {
                    &&& replies@.len() == 1
                    &&& replies@[0] matches ServerMessage::CharacterError { message }
                    &&& message@ == "Roll attributes first"@
                }),
            }
            &&& !allowed ==> (res matches Action::Reply(replies) && {
                &&& replies@.len() == 1
                &&& replies@[0] matches ServerMessage::CharacterError { message }
                &&& message@ == "The "@ + (if character_class is Merchant {
                    "merchant"@
                } else {
                    "guard"@
                }) + " class is not available"@
            })
        }),
{
}

/// A verified token leads to the account of its claims, unchanged; an unverified
/// one is refused.
pub proof fn law_verified_claims_are_kept(verified: Option<GoogleClaims>, res: Action)
    requires
        call_ensures(google_verified, (verified,), res),
    ensures
        verified matches Some(claims) ==> (res matches Action::LoginGoogle { claims: kept } && kept
            == claims),
        verified is None ==> (res matches Action::Reply(replies) && {
            &&& replies@.len() == 1
            &&& replies@[0] matches ServerMessage::AuthError { message }
            &&& message@ == "Google sign-in verification failed"@
        }),
{
}

/// The connection is as it was but for admin eligibility.
pub open spec fn same_but_for_eligibility(a: ConnectionState, b: ConnectionState) -> bool {
    &&& a.client_ip == b.client_ip
    &&& a.clock == b.clock
    &&& a.client_kind == b.client_kind
    &&& a.must_close == b.must_close
    &&& a.account_name == b.account_name
    &&& a.player_id == b.player_id
    &&& a.character_name == b.character_name
    &&& a.pending_character_attributes == b.pending_character_attributes
    &&& a.connected_at == b.connected_at
    &&& a.last_heartbeat == b.last_heartbeat
    &&& a.is_official_npc == b.is_official_npc
    &&& a.is_admin == b.is_admin
}

/// An account found for a Google identity goes on as a player's account. It is
/// eligible for admin rights exactly if the identity's address is verified and is,
/// but for ASCII case, one of the configured ones.
pub proof fn law_google_account_goes_on(
    state: &mut ConnectionState,
    ctx: &AuthContext,
    claims: GoogleClaims,
    login: Result<String, String>,
    res: Action,
)
    requires
        call_ensures(google_logged_in, (state, ctx, claims, login), res),
    ensures
        same_but_for_eligibility(*final(state), *old(state)),
        login matches Ok(account) ==> {
            &&& res matches Action::ListCharacters { account_name, is_official_npc }
            &&& account_name == account
            &&& !is_official_npc
            &&& final(state).admin_eligible <==> claims.email_verified == Some(true)
                && claims.email is Some && (exists|i: int|
                0 <= i < ctx.admin_emails@.len() && texts_alike(
                    #[trigger] ctx.admin_emails@[i]@,
                    (claims.email->0)@,
                ))
        },
        login matches Err(text) ==> final(state).admin_eligible == old(state).admin_eligible && (res matches Action::Reply(replies) && {
            &&& replies@.len() == 1
            &&& replies@[0] matches ServerMessage::AuthError { message }
            &&& message@ == text@
        }),
{
    if claims.email is Some {
        let email = (claims.email->0)@;
        assert forall|i: int| 0 <= i < ctx.admin_emails@.len() implies (texts_alike(
            #[trigger] ctx.admin_emails@[i]@,
            email,
        ) <==> same_ignoring_ascii_case(ctx.admin_emails@[i]@, email)) by {
            lemma_texts_alike(ctx.admin_emails@[i]@, email);
        }
    }
}

/// An NPC account goes on as an NPC's account, under the name the store gave it.
pub proof fn law_npc_account_goes_on(login: Result<String, String>, res: Action)
    requires
        call_ensures(npc_logged_in, (login,), res),
    ensures
        login matches Ok(account) ==> (res matches Action::ListCharacters {
            account_name,
            is_official_npc,
        } && account_name == account && is_official_npc),
        login matches Err(text) ==> (res matches Action::Reply(replies) && {
            &&& replies@.len() == 1
            &&& replies@[0] matches ServerMessage::AuthError { message }
            &&& message@ == text@
        }),
{
}

/// A dev account goes on as a player's account that is not eligible for admin
/// rights.
pub proof fn law_dev_account_goes_on(
    state: &mut ConnectionState,
    login: Result<String, String>,
    res: Action,
)
    requires
        call_ensures(dev_logged_in, (state, login), res),
    ensures
        same_but_for_eligibility(*final(state), *old(state)),
        login matches Ok(account) ==> !final(state).admin_eligible && (
        res matches Action::ListCharacters { account_name, is_official_npc } && account_name
            == account && !is_official_npc),
        login matches Err(text) ==> final(state).admin_eligible == old(state).admin_eligible && (res matches Action::Reply(replies) && {
            &&& replies@.len() == 1
            &&& replies@[0] matches ServerMessage::AuthError { message }
            &&& message@ == text@
        }),
{
}

/// A finished login makes the connection that account's and leaves the rest of it
/// alone, but that nothing is rolled yet and an NPC is not eligible for admin
/// rights. A failed one leaves all of it alone.
pub proof fn law_login_makes_the_connection_the_accounts(
    state: &mut ConnectionState,
    account_name: String,
    is_official_npc: bool,
    listed: Result<Vec<CharacterRecord>, String>,
    res: Vec<ServerMessage>,
)
    requires
        call_ensures(finish_auth, (state, account_name, is_official_npc, listed), res),
    ensures
        listed is Err ==> *final(state) == *old(state),
        listed is Ok ==> {
            &&& final(state).account_name == Some(account_name)
            &&& final(state).is_official_npc == is_official_npc
            &&& final(state).pending_character_attributes is None
            &&& final(state).admin_eligible ==> old(state).admin_eligible
            &&& final(state).admin_eligible ==> !is_official_npc
            &&& !is_official_npc ==> final(state).admin_eligible == old(state).admin_eligible
        },
        final(state).client_ip == old(state).client_ip,
        final(state).clock == old(state).clock,
        final(state).client_kind == old(state).client_kind,
        final(state).must_close == old(state).must_close,
        final(state).player_id == old(state).player_id,
        final(state).character_name == old(state).character_name,
        final(state).connected_at == old(state).connected_at,
        final(state).last_heartbeat == old(state).last_heartbeat,
        final(state).is_admin == old(state).is_admin,
{
}

/// The client sees each of its characters, in the order of the store, as it is
/// recorded; or why it cannot see them.
pub proof fn law_login_shows_every_character(
    state: &mut ConnectionState,
    account_name: String,
    is_official_npc: bool,
    listed: Result<Vec<CharacterRecord>, String>,
    res: Vec<ServerMessage>,
)
    requires
        call_ensures(finish_auth, (state, account_name, is_official_npc, listed), res),
    ensures
        res@.len() == 1,
        listed matches Err(text) ==> (res@[0] matches ServerMessage::AuthError { message }
            && message@ == text@),
        listed matches Ok(records) ==> {
            &&& res@[0] matches ServerMessage::AuthSuccess { account_name: named, characters }
            &&& named == account_name
            &&& characters@.len() == records@.len()
            &&& forall|i: int| 0 <= i < records@.len() ==> shows(#[trigger] characters@[i], records@[i])
        },
{
}

/// What a client sees of a record, field by field.
pub open spec fn shows(character: Character, record: CharacterRecord) -> bool {
    &&& character.id == record.id
    &&& character.name == record.name
    &&& character.created_at == record.created_at
    &&& character.level == record.level
    &&& character.xp == record.xp
    &&& character.max_hp == record.max_hp
    &&& character.attributes == record.attributes
    &&& character.class == record.class
    &&& character.gender == record.gender
}

/// The hit points asked about are those of the class that was rolled for and of
/// the attributes that were rolled, and it is those attributes that go on.
pub proof fn law_roll_goes_on_as_rolled(
    character_class: CharacterClass,
    attributes: CharacterAttributes,
    res: Action,
)
    requires
        call_ensures(attributes_rolled, (character_class, attributes), res),
    ensures
        res matches Action::ResolveHitPoints { query, purpose } && {
            &&& query.class == character_class
            &&& query.con == attributes.con
            &&& purpose matches HitPointPurpose::Roll(rolled)
            &&& rolled == attributes
        },
{
}

/// A roll is remembered and shown as it is, with the hit points of the rule, or 13
/// where the rule has none. Nothing else of the connection changes.
pub proof fn law_roll_is_remembered_and_shown(
    state: &mut ConnectionState,
    attributes: CharacterAttributes,
    resolved: Option<u32>,
    res: Action,
)
    requires
        call_ensures(hit_points_resolved, (state, HitPointPurpose::Roll(attributes), resolved), res),
    ensures
        final(state).pending_character_attributes == Some(attributes),
        *old(state) == (ConnectionState {
            pending_character_attributes: old(state).pending_character_attributes,
            ..*final(state)
        }),
        res matches Action::Reply(replies) && {
            &&& replies@.len() == 1
            &&& replies@[0] matches ServerMessage::CharacterStatsRolled {
                attributes: shown,
                max_hp,
            }
            &&& shown == attributes
            &&& resolved matches Some(points) ==> max_hp == points
            &&& resolved is None ==> max_hp == 13
        },
{
}

/// A character is stored as it was put together, with the hit points of the rule,
/// or 13 where the rule has none; the roll is not used up before that succeeds.
pub proof fn law_character_is_stored_as_put_together(
    state: &mut ConnectionState,
    character: NewCharacter,
    resolved: Option<u32>,
    res: Action,
)
    requires
        call_ensures(
            hit_points_resolved,
            (state, HitPointPurpose::Create(character), resolved),
            res,
        ),
    ensures
        *final(state) == *old(state),
        res matches Action::StoreCharacter { character: stored, max_hp } && {
            &&& stored == character
            &&& resolved matches Some(points) ==> max_hp == points
            &&& resolved is None ==> max_hp == 13
        },
{
}

/// A stored character is shown as it is recorded, and its roll is used up. One that
/// could not be stored leaves the roll, and the client reads why.
pub proof fn law_stored_character_is_shown(
    state: &mut ConnectionState,
    stored: Result<CharacterRecord, String>,
    res: Action,
)
    requires
        call_ensures(character_stored, (state, stored), res),
    ensures
        stored is Ok ==> final(state).pending_character_attributes is None,
        *old(state) == (ConnectionState {
            pending_character_attributes: old(state).pending_character_attributes,
            ..*final(state)
        }),
        stored matches Ok(record) ==> (res matches Action::Reply(replies) && {
            &&& replies@.len() == 1
            &&& replies@[0] matches ServerMessage::CharacterCreated { character }
            &&& shows(character, record)
        }),
        stored matches Err(text) ==> *final(state) == *old(state) && (res matches Action::Reply(replies) && {
            &&& replies@.len() == 1
            &&& replies@[0] matches ServerMessage::CharacterError { message }
            &&& message@ == text@
        }),
{
}

/// A deletion is reported for the character that was deleted; a failed one with its
/// reason.
pub proof fn law_deletion_is_reported(
    character_id: i64,
    deleted: Result<(), String>,
    res: Action,
)
    requires
        call_ensures(character_deleted, (character_id, deleted), res),
    ensures
        deleted is Ok ==> (res matches Action::Reply(replies) && {
            &&& replies@.len() == 1
            &&& replies@[0] matches ServerMessage::CharacterDeleted { character_id: id }
            &&& id == character_id
        }),
        deleted matches Err(text) ==> (res matches Action::Reply(replies) && {
            &&& replies@.len() == 1
            &&& replies@[0] matches ServerMessage::CharacterError { message }
            &&& message@ == text@
        }),
{
}

/// A client introduces itself with protocol version 7 and is then known by the
/// program it reports; with any other version it stays unknown, is told both
/// versions and what to do, and is marked to be closed. Nothing else changes.
pub proof fn law_introduction_takes_the_version(
    conn: &mut ConnectionState,
    protocol_version: u32,
    client_kind: String,
    client_version: String,
    ctx: &AuthContext,
    now: u128,
    res: Action,
)
    requires
        call_ensures(
            handle_client_message,
            (
                conn,
                ClientMessage::ClientInfo { protocol_version, client_kind, client_version },
                ctx,
                now,
            ),
            res,
        ),
        old(conn).client_kind is None,
    ensures
        *old(conn) == (ConnectionState {
            client_kind: None,
            must_close: old(conn).must_close,
            ..*final(conn)
        }),
        protocol_version == 7 ==> {
            &&& final(conn).must_close == old(conn).must_close
            &&& client_kind@ == "web"@ ==> final(conn).client_kind == Some(ClientKind::Web)
            &&& client_kind@ == "cli"@ ==> final(conn).client_kind == Some(ClientKind::Cli)
            &&& client_kind@ != "web"@ && client_kind@ != "cli"@ ==> final(conn).client_kind
                == Some(ClientKind::Other)
            &&& res matches Action::Reply(replies)
            &&& replies@.len() == 0
        },
        protocol_version != 7 ==> {
            &&& final(conn).must_close
            &&& final(conn).client_kind is None
            &&& res matches Action::Reply(replies)
            &&& replies@.len() == 1
            &&& replies@[0] matches ServerMessage::AuthError { message }
            &&& message@ == "Protocol v"@ + decimal(7) + " required, you sent v"@ + decimal(
                protocol_version as nat,
            ) + " — "@ + "reload the page, or update agent-client (https://github.com/Julian-adv/OpenMMO)"@
        },
{
    reveal_strlit("web");
    reveal_strlit("cli");
    assert("web"@[0] != "cli"@[0]);
}

/// Before it introduced itself, a client that sends anything else is told to, and
/// is marked to be closed; the message has no other effect.
pub proof fn law_early_messages_only_close(
    conn: &mut ConnectionState,
    msg: ClientMessage,
    ctx: &AuthContext,
    now: u128,
    res: Action,
)
    requires
        call_ensures(handle_client_message, (conn, msg, ctx, now), res),
        old(conn).client_kind is None,
        !(msg is ClientInfo),
    ensures
        final(conn).must_close,
        *old(conn) == (ConnectionState { must_close: old(conn).must_close, ..*final(conn) }),
        res matches Action::Reply(replies) && {
            &&& replies@.len() == 1
            &&& replies@[0] matches ServerMessage::AuthError { message }
            &&& message@ == "Send ClientInfo first — "@ + "reload the page, or update agent-client (https://github.com/Julian-adv/OpenMMO)"@
        },
{
}

/// A refusal is logged under the reason it has: an introduction with another version
/// than 7, or anything else before the introduction.
pub proof fn law_refusals_are_told_apart(
    msg: &ClientMessage,
    state: &ConnectionState,
    res: Option<RefusalReason>,
)
    requires
        call_ensures(handshake_refusal, (msg, state), res),
    ensures
        state.client_kind is Some ==> res is None,
        state.client_kind is None ==> match *msg {
            ClientMessage::ClientInfo { protocol_version, .. } => if protocol_version == 7 {
                res is None
            } else {
                res == Some(RefusalReason::WrongVersion)
            },
            _ => res == Some(RefusalReason::EarlyMessage),
        },
{
}

/// The handshake by itself lets through exactly the messages of greeted clients that
/// are no introductions, and changes nothing for them.
pub proof fn law_handshake_lets_greeted_clients_through(
    msg: &ClientMessage,
    state: &mut ConnectionState,
    res: Option<Vec<ServerMessage>>,
)
    requires
        call_ensures(handle_handshake, (msg, state), res),
    ensures
        res is None <==> old(state).client_kind is Some && !(*msg is ClientInfo),
        old(state).client_kind is Some ==> *final(state) == *old(state),
{
}

} // verus!
