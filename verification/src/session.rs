//! The life of one client message. `handle_client_message` decides what to do
//! with it and names the work as an `Action`; once that work is done, the
//! function for its outcome says how to go on, until the message is answered.

use crate::address::is_loopback;
use crate::auth::{token_matches, AuthContext, GoogleClaims};
use crate::character::{
    character_record_to_shared, default_character_max_hp, shared_part, starting_hp, Character,
    CharacterAttributes, CharacterClass, CharacterRecord, Gender, HitPointQuery,
};
use crate::connection::{
    admin_only, auth_error, character_error, class_refusal, handle_handshake, handshake,
    in_game_refusal, refuse_auth, refuse_character, requires_admin, system_line, system_message,
    ConnectionState,
};
use crate::entity::{Player, PlayerId};
use crate::game::{
    game_action, play, DungeonDoor, GameCommand, HouseDoor, MonsterSpawn, SpawnRequest,
};
use crate::join::{Entering, FloorEntry, Joined, NewPlayer, RegistrationStep};
use crate::messages::{ClientMessage, ServerMessage};
use crate::world::Position;
use vstd::prelude::*;
use vstd::string::*;

verus! {

/// A character that is about to be stored.
#[derive(Debug)]
pub struct NewCharacter {
    pub account_name: String,
    pub character_name: String,
    pub attributes: CharacterAttributes,
    pub character_class: CharacterClass,
    pub gender: Gender,
}

/// What resolved hit points are wanted for.
#[derive(Debug)]
pub enum HitPointPurpose {
    /// To store this character.
    Create(NewCharacter),
    /// To show the attributes just rolled.
    Roll(CharacterAttributes),
}

/// What the server does next with a message.
#[allow(inconsistent_fields)]
#[derive(Debug)]
pub enum Action {
    /// The message is dealt with; these replies go to the client, in order.
    Reply(Vec<ServerMessage>),
    /// The message is dealt with and has no reply.
    Done,
    /// Verify a Google sign-in token; go on with `google_verified`.
    VerifyGoogleToken { google_id_token: String },
    /// Find or create the account of a Google identity by its `account_key`; go
    /// on with `google_logged_in`.
    LoginGoogle { claims: GoogleClaims },
    /// Find or create an NPC account; go on with `npc_logged_in`.
    LoginNpc { account_name: String },
    /// Find or create a dev account; go on with `dev_logged_in`.
    LoginDev { account_name: String },
    /// List the characters of an account; go on with `finish_auth`.
    ListCharacters { account_name: String, is_official_npc: bool },
    /// Roll attributes; go on with `attributes_rolled`.
    RollAttributes { character_class: CharacterClass, gender: Gender },
    /// Ask the level-one hit point rule; go on with `hit_points_resolved`.
    ResolveHitPoints { query: HitPointQuery, purpose: HitPointPurpose },
    /// Store a character; go on with `character_stored`.
    StoreCharacter { character: NewCharacter, max_hp: u32 },
    /// Delete a character; go on with `character_deleted`.
    DeleteCharacter { account_name: String, character_id: i64 },
    /// Load a character of an account; go on with `character_loaded`.
    LoadCharacter { account_name: String, character_id: i64 },
    /// End any session of that character and create its player; go on with
    /// `player_created`.
    ReplaceSession { character_id: i64, record: CharacterRecord, player: NewPlayer },
    /// Re-prime the dungeon the player logged out in; go on with
    /// `dungeon_rehydrated`.
    RehydrateDungeon { entering: Entering },
    /// Take these steps, in order, then look up what the join replies need; go
    /// on with `player_registered`.
    Register { entering: Entering, steps: Vec<RegistrationStep> },
    /// Put the player into the world; go on with `player_added`.
    AddPlayer { player: Player, joined: Joined, replies: Vec<ServerMessage> },
    /// Enter the floor, if one is given, then send the replies: the character
    /// is in game.
    Entered { floor_entry: Option<FloorEntry>, replies: Vec<ServerMessage> },
    /// Hand this to the running game; the message is dealt with.
    Game(GameCommand),
    /// Judge a spawn request; go on with `spawn_validated`.
    ValidateSpawn { player: PlayerId, request: SpawnRequest },
    /// Create a monster; go on with `monster_spawned`.
    SpawnMonster { player: PlayerId, spawn: MonsterSpawn },
    /// Toggle a dungeon door; go on with `dungeon_door_toggled`.
    ToggleDungeonDoor { player: PlayerId, door: DungeonDoor },
    /// List the open doors of a dungeon; go on with `dungeon_doors_listed`.
    ListDungeonDoors { player: PlayerId, entrance_id: String },
    /// Locate the player and find the floor of the target; go on with
    /// `teleport_located`.
    LocateForTeleport { player: PlayerId, position: Position },
    /// Toggle a house door; go on with `house_door_toggled`.
    ToggleHouseDoor { player: PlayerId, door: HouseDoor },
    /// Locate the player at the door; go on with `door_located`.
    LocateForDoor { player: PlayerId, door: HouseDoor, is_open: bool },
}

impl Action {
    /// The message is dealt with: one login refusal that reads `text`.
    pub open spec fn refuses_auth(self, text: Seq<char>) -> bool {
        self matches Action::Reply(replies) && auth_error(replies@, text)
    }

    /// The message is dealt with: one refusal of a character request that reads
    /// `text`.
    pub open spec fn refuses_character(self, text: Seq<char>) -> bool {
        self matches Action::Reply(replies) && character_error(replies@, text)
    }

    /// The message is dealt with: exactly this reply.
    pub open spec fn replies_with(self, reply: ServerMessage) -> bool {
        self matches Action::Reply(replies) && replies@ == seq![reply]
    }
}

/// The part of a connection's life an action belongs to.
#[derive(Debug, Clone, Copy, PartialEq, Eq, Structural)]
pub enum Stage {
    /// Any: the message is answered.
    Answered,
    /// The client has introduced itself and is not logged in yet.
    LoggingIn,
    /// An account is logged in and none of its characters is in game yet.
    ChoosingCharacter,
    /// A character is in game.
    Playing,
}

impl Action {
    /// The part of a connection's life this action belongs to.
    pub open spec fn stage(self) -> Stage {
        match self {
            Action::Reply(_) | Action::Done => Stage::Answered,
            Action::VerifyGoogleToken { .. }
            | Action::LoginGoogle { .. }
            | Action::LoginNpc { .. }
            | Action::LoginDev { .. }
            | Action::ListCharacters { .. } => Stage::LoggingIn,
            Action::RollAttributes { .. }
            | Action::ResolveHitPoints { .. }
            | Action::StoreCharacter { .. }
            | Action::DeleteCharacter { .. }
            | Action::LoadCharacter { .. }
            | Action::ReplaceSession { .. }
            | Action::RehydrateDungeon { .. }
            | Action::Register { .. }
            | Action::AddPlayer { .. } => Stage::ChoosingCharacter,
            Action::Entered { .. }
            | Action::Game(_)
            | Action::ValidateSpawn { .. }
            | Action::SpawnMonster { .. }
            | Action::ToggleDungeonDoor { .. }
            | Action::ListDungeonDoors { .. }
            | Action::LocateForTeleport { .. }
            | Action::ToggleHouseDoor { .. }
            | Action::LocateForDoor { .. } => Stage::Playing,
        }
    }

    /// This action ends the message, or belongs to `stage`.
    pub open spec fn stays_in(self, stage: Stage) -> bool {
        self.stage() == stage || self.stage() == Stage::Answered
    }
}

/// A connection with an action of this stage under way is coherent and in that
/// stage. Every function that ends an action keeps this for the next one, so a
/// connection goes through its stages in order, whatever its client sends and
/// whatever the outside work comes back with.
pub open spec fn under_way(state: ConnectionState, stage: Stage) -> bool {
    &&& state.coherent()
    &&& match stage {
        Stage::Answered => true,
        Stage::LoggingIn => state.greeted() && !state.authenticated(),
        Stage::ChoosingCharacter => state.authenticated() && !state.in_game(),
        Stage::Playing => state.in_game(),
    }
}

fn one_reply(reply: ServerMessage) -> (res: Action)
    ensures
        res.replies_with(reply),
{
    let replies = vec![reply];
    assert(replies@ =~= seq![reply]);
    Action::Reply(replies)
}

/// A message that logs an account in.
pub open spec fn is_login(msg: ClientMessage) -> bool {
    msg is Authenticate || msg is AuthenticateNpc || msg is AuthenticateDev
}

/// The handshake gate keeps the message to itself.
pub open spec fn stopped_at_handshake(state: ConnectionState, msg: ClientMessage) -> bool {
    msg is ClientInfo || !state.greeted()
}

/// What a message that asks for a character may need of the connection, in the
/// order in which it is refused: not in game, an account, a class the client
/// may play.
pub open spec fn refused_character_request(
    state: ConnectionState,
    request: Seq<char>,
    class: Option<CharacterClass>,
    action: Action,
) -> bool {
    if state.in_game() {
        action.refuses_character(in_game_refusal(request))
    } else if !state.authenticated() {
        action.refuses_character("Authenticate first"@)
    } else {
        &&& class matches Some(class)
        &&& !state.may_play(class)
        &&& action.refuses_character(class_refusal(class))
    }
}

/// What becomes of a request to create a character: it takes a roll, and goes on
/// with the hit points of the rolled attributes.
pub open spec fn creation_answer(
    state: ConnectionState,
    character_name: String,
    character_class: CharacterClass,
    gender: Gender,
    action: Action,
) -> bool {
    if state.in_game() || !state.authenticated() || !state.may_play(character_class) {
        refused_character_request(state, "CreateCharacter"@, Some(character_class), action)
    } else {
        match state.pending_character_attributes {
            None => action.refuses_character("Roll attributes first"@),
            Some(attributes) => action == (Action::ResolveHitPoints {
                query: HitPointQuery { class: character_class, con: attributes.con },
                purpose: HitPointPurpose::Create(
                    NewCharacter {
                        account_name: state.account_name->0,
                        character_name,
                        attributes,
                        character_class,
                        gender,
                    },
                ),
            }),
        }
    }
}

/// What becomes of a message that got past the gates.
pub open spec fn handled(
    before: ConnectionState,
    msg: ClientMessage,
    ctx: AuthContext,
    now: u128,
    after: ConnectionState,
    action: Action,
) -> bool {
    match msg {
        ClientMessage::Heartbeat => {
            after == (ConnectionState { last_heartbeat: now, ..before }) && action is Done
        },
        ClientMessage::Authenticate { google_id_token } => {
            &&& after == before
            &&& if ctx.google is None {
                action.refuses_auth("Google sign-in is not configured on this server"@)
            } else {
                action == (Action::VerifyGoogleToken { google_id_token })
            }
        },
        ClientMessage::AuthenticateNpc { account_name, npc_token } => {
            &&& after == before
            &&& if npc_token@ != ctx.npc_token@ {
                action.refuses_auth("Invalid NPC token"@)
            } else {
                action == (Action::LoginNpc { account_name })
            }
        },
        ClientMessage::AuthenticateDev { account_name } => {
            &&& after == before
            &&& if !ctx.dev_auth {
                action.refuses_auth("Dev login is not enabled on this server"@)
            } else if !before.client_ip.loopback() {
                action.refuses_auth("Dev login is only allowed from localhost"@)
            } else {
                action == (Action::LoginDev { account_name })
            }
        },
        ClientMessage::CreateCharacter { character_name, character_class, gender } => {
            &&& after == before
            &&& creation_answer(before, character_name, character_class, gender, action)
        },
        ClientMessage::DeleteCharacter { character_id } => {
            &&& after == before
            &&& if before.in_game() || !before.authenticated() {
                refused_character_request(before, "DeleteCharacter"@, None, action)
            } else {
                action == (Action::DeleteCharacter {
                    account_name: before.account_name->0,
                    character_id,
                })
            }
        },
        ClientMessage::RollCharacterStats { character_class, gender } => {
            &&& after == before
            &&& if before.in_game() || !before.authenticated() || !before.may_play(
                character_class,
            ) {
                refused_character_request(
                    before,
                    "RollCharacterStats"@,
                    Some(character_class),
                    action,
                )
            } else {
                action == (Action::RollAttributes { character_class, gender })
            }
        },
        ClientMessage::EnterGame { character_id } => {
            &&& after == before
            &&& if before.in_game() {
                action is Done
            } else if !before.authenticated() {
                action.refuses_character("Authenticate first"@)
            } else {
                action == (Action::LoadCharacter {
                    account_name: before.account_name->0,
                    character_id,
                })
            }
        },
        _ => after == before && action == game_action(before, msg),
    }
}

/// What becomes of any message: the handshake comes first, then the refusal of
/// a second login, then the refusal of admin messages, then the rest.
pub open spec fn answered(
    before: ConnectionState,
    msg: ClientMessage,
    ctx: AuthContext,
    now: u128,
    after: ConnectionState,
    action: Action,
) -> bool {
    if stopped_at_handshake(before, msg) {
        action matches Action::Reply(replies) && handshake(msg, before, after, Some(replies@))
    } else if is_login(msg) && before.authenticated() {
        after == before && action.refuses_auth("Already authenticated"@)
    } else if admin_only(msg) && !before.is_admin {
        &&& after == before
        &&& if before.in_game() {
            action matches Action::Reply(replies) && system_message(replies@, "Admin only"@)
        } else {
            action is Done
        }
    } else {
        handled(before, msg, ctx, now, after, action)
    }
}

/// Decides what to do with a message that arrived at `now`.
pub fn handle_client_message(
    state: &mut ConnectionState,
    msg: ClientMessage,
    ctx: &AuthContext,
    now: u128,
) -> (res: Action)
    ensures
        answered(*old(state), msg, *ctx, now, *final(state), res),
        old(state).coherent() ==> under_way(*final(state), res.stage()),
{
    match handle_handshake(&msg, state) {
        Some(replies) => {
            return Action::Reply(replies);
        },
        None => {},
    }
    let login = match &msg {
        ClientMessage::Authenticate { .. } => true,
        ClientMessage::AuthenticateNpc { .. } => true,
        ClientMessage::AuthenticateDev { .. } => true,
        _ => false,
    };
    if login && state.account_name.is_some() {
        return Action::Reply(refuse_auth("Already authenticated"));
    }
    if requires_admin(&msg) && !state.is_admin {
        return match &state.player_id {
            Some(_) => Action::Reply(system_line("Admin only")),
            None => Action::Done,
        };
    }
    match msg {
        ClientMessage::Heartbeat => {
            state.last_heartbeat = now;
            Action::Done
        },
        ClientMessage::Authenticate { google_id_token } => {
            if ctx.google.is_none() {
                Action::Reply(refuse_auth("Google sign-in is not configured on this server"))
            } else {
                Action::VerifyGoogleToken { google_id_token }
            }
        },
        ClientMessage::AuthenticateNpc { account_name, npc_token } => {
            if !token_matches(npc_token.as_str(), ctx.npc_token.as_str()) {
                Action::Reply(refuse_auth("Invalid NPC token"))
            } else {
                Action::LoginNpc { account_name }
            }
        },
        ClientMessage::AuthenticateDev { account_name } => {
            if !ctx.dev_auth {
                Action::Reply(refuse_auth("Dev login is not enabled on this server"))
            } else if !is_loopback(state.client_ip) {
                Action::Reply(refuse_auth("Dev login is only allowed from localhost"))
            } else {
                Action::LoginDev { account_name }
            }
        },
        ClientMessage::CreateCharacter { character_name, character_class, gender } => {
            request_creation(state, character_name, character_class, gender)
        },
        ClientMessage::DeleteCharacter { character_id } => {
            match state.require_not_in_game("DeleteCharacter") {
                Ok(_) => {},
                Err(replies) => {
                    return Action::Reply(replies);
                },
            }
            match state.require_auth() {
                Ok(account_name) => Action::DeleteCharacter { account_name, character_id },
                Err(replies) => Action::Reply(replies),
            }
        },
        ClientMessage::RollCharacterStats { character_class, gender } => {
            match state.require_not_in_game("RollCharacterStats") {
                Ok(_) => {},
                Err(replies) => {
                    return Action::Reply(replies);
                },
            }
            match state.require_auth() {
                Ok(_) => {},
                Err(replies) => {
                    return Action::Reply(replies);
                },
            }
            match state.require_selectable_class(&character_class) {
                Ok(_) => Action::RollAttributes { character_class, gender },
                Err(replies) => Action::Reply(replies),
            }
        },
        ClientMessage::EnterGame { character_id } => {
            if state.player_id.is_some() {
                return Action::Done;
            }
            match state.require_auth() {
                Ok(account_name) => Action::LoadCharacter { account_name, character_id },
                Err(replies) => Action::Reply(replies),
            }
        },
        other => play(state, other),
    }
}

fn request_creation(
    state: &ConnectionState,
    character_name: String,
    character_class: CharacterClass,
    gender: Gender,
) -> (res: Action)
    ensures
        creation_answer(*state, character_name, character_class, gender, res),
{
    match state.require_not_in_game("CreateCharacter") {
        Ok(_) => {},
        Err(replies) => {
            return Action::Reply(replies);
        },
    }
    let account_name = match state.require_auth() {
        Ok(account_name) => account_name,
        Err(replies) => {
            return Action::Reply(replies);
        },
    };
    match state.require_selectable_class(&character_class) {
        Ok(_) => {},
        Err(replies) => {
            return Action::Reply(replies);
        },
    }
    match state.pending_character_attributes {
        None => Action::Reply(refuse_character("Roll attributes first")),
        Some(attributes) => Action::ResolveHitPoints {
            query: HitPointQuery { class: character_class, con: attributes.con },
            purpose: HitPointPurpose::Create(
                NewCharacter { account_name, character_name, attributes, character_class, gender },
            ),
        },
    }
}

/// After a Google token was judged: its claims lead to an account, a bad token
/// is refused.
pub fn google_verified(verified: Option<GoogleClaims>) -> (res: Action)
    ensures
        res.stays_in(Stage::LoggingIn),
        match verified {
            Some(claims) => res == (Action::LoginGoogle { claims }),
            None => res.refuses_auth("Google sign-in verification failed"@),
        },
{
    match verified {
        Some(claims) => Action::LoginGoogle { claims },
        None => Action::Reply(refuse_auth("Google sign-in verification failed")),
    }
}

/// The connection with the admin eligibility of a Google identity.
pub open spec fn with_google_login(
    state: ConnectionState,
    ctx: AuthContext,
    claims: GoogleClaims,
) -> ConnectionState {
    ConnectionState { admin_eligible: ctx.admits(claims), ..state }
}

/// The connection of a dev login, which is never eligible for admin rights.
pub open spec fn with_dev_login(state: ConnectionState) -> ConnectionState {
    ConnectionState { admin_eligible: false, ..state }
}

/// The connection with an account logged in and nothing rolled yet. An NPC
/// account has no address, so it is on no allowlist.
pub open spec fn with_account(
    state: ConnectionState,
    account_name: String,
    is_official_npc: bool,
) -> ConnectionState {
    ConnectionState {
        account_name: Some(account_name),
        is_official_npc,
        pending_character_attributes: None,
        admin_eligible: state.admin_eligible && !is_official_npc,
        ..state
    }
}

/// After the account of a Google identity was looked up: the allowlist decides
/// whether it may become admin, and its characters are listed. A failed lookup
/// is refused in the words of the account store.
pub fn google_logged_in(
    state: &mut ConnectionState,
    ctx: &AuthContext,
    claims: GoogleClaims,
    login: Result<String, String>,
) -> (res: Action)
    ensures
        match login {
            Ok(account_name) => {
                &&& *final(state) == with_google_login(*old(state), *ctx, claims)
                &&& res == (Action::ListCharacters { account_name, is_official_npc: false })
            },
            Err(text) => *final(state) == *old(state) && res.refuses_auth(text@),
        },
        under_way(*old(state), Stage::LoggingIn) ==> under_way(*final(state), res.stage()),
{
    match login {
        Ok(account_name) => {
            state.admin_eligible = ctx.is_admin(&claims);
            Action::ListCharacters { account_name, is_official_npc: false }
        },
        Err(text) => Action::Reply(refuse_auth(text.as_str())),
    }
}

/// After an NPC account was looked up: its characters are listed, or the login
/// is refused in the words of the account store.
pub fn npc_logged_in(login: Result<String, String>) -> (res: Action)
    ensures
        res.stays_in(Stage::LoggingIn),
        match login {
            Ok(account_name) => res == (Action::ListCharacters {
                account_name,
                is_official_npc: true,
            }),
            Err(text) => res.refuses_auth(text@),
        },
{
    match login {
        Ok(account_name) => Action::ListCharacters { account_name, is_official_npc: true },
        Err(text) => Action::Reply(refuse_auth(text.as_str())),
    }
}

/// After a dev account was looked up: it is never eligible for admin rights,
/// and its characters are listed. A failed lookup is refused in the words of
/// the account store.
pub fn dev_logged_in(state: &mut ConnectionState, login: Result<String, String>) -> (res: Action)
    ensures
        match login {
            Ok(account_name) => {
                &&& *final(state) == with_dev_login(*old(state))
                &&& res == (Action::ListCharacters { account_name, is_official_npc: false })
            },
            Err(text) => *final(state) == *old(state) && res.refuses_auth(text@),
        },
        under_way(*old(state), Stage::LoggingIn) ==> under_way(*final(state), res.stage()),
{
    match login {
        Ok(account_name) => {
            state.admin_eligible = false;
            Action::ListCharacters { account_name, is_official_npc: false }
        },
        Err(text) => Action::Reply(refuse_auth(text.as_str())),
    }
}

/// The clients' view of every record.
pub open spec fn shared_parts(records: Seq<CharacterRecord>) -> Seq<Character> {
    records.map_values(|record: CharacterRecord| shared_part(record))
}

/// Shared tail of every login: marks the connection authenticated and builds
/// the reply that lists the characters of the account. An NPC account is never
/// eligible for admin rights, whatever login was tried before. When the
/// characters cannot be listed the login fails, in the words of the account
/// store.
pub fn finish_auth(
    state: &mut ConnectionState,
    account_name: String,
    is_official_npc: bool,
    listed: Result<Vec<CharacterRecord>, String>,
) -> (res: Vec<ServerMessage>)
    ensures
        match listed {
            Ok(records) => {
                &&& *final(state) == with_account(*old(state), account_name, is_official_npc)
                &&& res@.len() == 1
                &&& res@[0] matches ServerMessage::AuthSuccess { account_name: named, characters }
                &&& named == account_name
                &&& characters@ == shared_parts(records@)
            },
            Err(text) => *final(state) == *old(state) && auth_error(res@, text@),
        },
        under_way(*old(state), Stage::LoggingIn) ==> under_way(*final(state), Stage::Answered),
{
    let records = match listed {
        Ok(records) => records,
        Err(text) => {
            return refuse_auth(text.as_str());
        },
    };
    let ghost all = records@;
    let mut characters: Vec<Character> = Vec::new();
    for record in it: records
        invariant
            it.seq() == all,
            characters@ == shared_parts(all.take(it.index() as int)),
    {
        let ghost done = it.index() as int;
        characters.push(character_record_to_shared(record));
        assert(shared_parts(all.take(done + 1)) =~= shared_parts(all.take(done)).push(
            shared_part(all[done]),
        ));
    }
    assert(all.take(all.len() as int) =~= all);
    state.account_name = Some(account_name.clone());
    state.is_official_npc = is_official_npc;
    state.admin_eligible = state.admin_eligible && !is_official_npc;
    state.pending_character_attributes = None;
    vec![ServerMessage::AuthSuccess { account_name, characters }]
}

/// After attributes were rolled: the hit point rule is asked about them.
pub fn attributes_rolled(character_class: CharacterClass, attributes: CharacterAttributes) -> (res:
    Action)
    ensures
        res == (Action::ResolveHitPoints {
            query: HitPointQuery { class: character_class, con: attributes.con },
            purpose: HitPointPurpose::Roll(attributes),
        }),
        res.stays_in(Stage::ChoosingCharacter),
{
    Action::ResolveHitPoints {
        query: HitPointQuery { class: character_class, con: attributes.con },
        purpose: HitPointPurpose::Roll(attributes),
    }
}

/// After the hit point rule was asked: a character goes on to be stored with
/// them, a roll is remembered and shown.
pub fn hit_points_resolved(
    state: &mut ConnectionState,
    purpose: HitPointPurpose,
    resolved: Option<u32>,
) -> (res: Action)
    ensures
        match purpose {
            HitPointPurpose::Create(character) => {
                &&& *final(state) == *old(state)
                &&& res == (Action::StoreCharacter { character, max_hp: starting_hp(resolved) })
            },
            HitPointPurpose::Roll(attributes) => {
                &&& *final(state) == (ConnectionState {
                    pending_character_attributes: Some(attributes),
                    ..*old(state)
                })
                &&& res.replies_with(
                    ServerMessage::CharacterStatsRolled {
                        attributes,
                        max_hp: starting_hp(resolved),
                    },
                )
            },
        },
        under_way(*old(state), Stage::ChoosingCharacter) ==> under_way(*final(state), res.stage()),
{
    let max_hp: u32 = default_character_max_hp(resolved);
    match purpose {
        HitPointPurpose::Create(character) => Action::StoreCharacter { character, max_hp },
        HitPointPurpose::Roll(attributes) => {
            state.pending_character_attributes = Some(attributes);
            one_reply(ServerMessage::CharacterStatsRolled { attributes, max_hp })
        },
    }
}

/// After a character was stored: the roll it was made of is used up and the
/// character is shown. A failure is refused in the words of the store, and the
/// roll stays.
pub fn character_stored(state: &mut ConnectionState, stored: Result<CharacterRecord, String>) -> (res:
    Action)
    ensures
        match stored {
            Ok(record) => {
                &&& *final(state) == (ConnectionState {
                    pending_character_attributes: None,
                    ..*old(state)
                })
                &&& res.replies_with(
                    ServerMessage::CharacterCreated { character: shared_part(record) },
                )
            },
            Err(text) => *final(state) == *old(state) && res.refuses_character(text@),
        },
        under_way(*old(state), Stage::ChoosingCharacter) ==> under_way(*final(state), res.stage()),
{
    match stored {
        Ok(record) => {
            state.pending_character_attributes = None;
            one_reply(
                ServerMessage::CharacterCreated { character: character_record_to_shared(record) },
            )
        },
        Err(text) => Action::Reply(refuse_character(text.as_str())),
    }
}

/// After a character was deleted, or could not be.
pub fn character_deleted(character_id: i64, deleted: Result<(), String>) -> (res: Action)
    ensures
        match deleted {
            Ok(_) => res.replies_with(ServerMessage::CharacterDeleted { character_id }),
            Err(text) => res.refuses_character(text@),
        },
        res.stays_in(Stage::ChoosingCharacter),
{
    match deleted {
        Ok(_) => one_reply(ServerMessage::CharacterDeleted { character_id }),
        Err(text) => Action::Reply(refuse_character(text.as_str())),
    }
}

} // verus!
