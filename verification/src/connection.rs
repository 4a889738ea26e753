//! What the server remembers of one client, and the gates every message has to
//! pass: the protocol handshake, login, and the rules on what a client may ask
//! for at which moment.

use crate::address::ClientIp;
use crate::character::{CharacterAttributes, CharacterClass};
use crate::clock::Clock;
use crate::entity::{kind_named, ClientKind, PlayerId};
use crate::messages::{ClientMessage, ServerMessage};
use crate::protocol::PROTOCOL_VERSION;
use crate::refusal::RefusalReason;
use crate::text::{decimal, decimal_text, same_text, starts_with};
use vstd::prelude::*;
use vstd::string::*;

verus! {

/// What a refused client should do. Carried in the rejection text because that
/// message is the only thing an out-of-date client can still show.
pub const CLIENT_UPDATE_HINT: &'static str =
    "reload the page, or update agent-client (https://github.com/Julian-adv/OpenMMO)";

/// What the server remembers of one client.
#[derive(Debug)]
pub struct ConnectionState {
    /// Address the client is held accountable for.
    pub client_ip: ClientIp,
    /// Client program reported in `ClientInfo`. `None` until the handshake
    /// arrives, which is what gates every other message.
    pub client_kind: Option<ClientKind>,
    /// Set when the connection must be dropped right after its pending
    /// responses are flushed (protocol mismatch).
    pub must_close: bool,
    pub account_name: Option<String>,
    pub player_id: Option<PlayerId>,
    /// Entered character's name, kept here so it outlives the player's record.
    pub character_name: Option<String>,
    pub pending_character_attributes: Option<CharacterAttributes>,
    /// Source of the two moments below.
    pub clock: Clock,
    pub connected_at: u128,
    pub last_heartbeat: u128,
    pub is_official_npc: bool,
    /// Account email is on the admin allowlist.
    pub admin_eligible: bool,
    /// `admin_eligible`, and the entered character has an admin role.
    pub is_admin: bool,
}

/// The replies are one login refusal that reads `text`.
pub open spec fn auth_error(replies: Seq<ServerMessage>, text: Seq<char>) -> bool {
    &&& replies.len() == 1
    &&& replies[0] matches ServerMessage::AuthError { message }
    &&& message@ == text
}

/// The replies are one refusal of a character request that reads `text`.
pub open spec fn character_error(replies: Seq<ServerMessage>, text: Seq<char>) -> bool {
    &&& replies.len() == 1
    &&& replies[0] matches ServerMessage::CharacterError { message }
    &&& message@ == text
}

/// The replies are one system line that reads `text`.
pub open spec fn system_message(replies: Seq<ServerMessage>, text: Seq<char>) -> bool {
    &&& replies.len() == 1
    &&& replies[0] matches ServerMessage::SystemMessage { message }
    &&& message@ == text
}

/// One login refusal that reads `text`.
pub fn refuse_auth(text: &str) -> (res: Vec<ServerMessage>)
    ensures
        auth_error(res@, text@),
{
    vec![ServerMessage::AuthError { message: text.to_owned() }]
}

/// One refusal of a character request that reads `text`.
pub fn refuse_character(text: &str) -> (res: Vec<ServerMessage>)
    ensures
        character_error(res@, text@),
{
    vec![ServerMessage::CharacterError { message: text.to_owned() }]
}

/// One system line that reads `text`.
pub fn system_line(text: &str) -> (res: Vec<ServerMessage>)
    ensures
        system_message(res@, text@),
{
    vec![ServerMessage::SystemMessage { message: text.to_owned() }]
}

impl ConnectionState {
    /// The handshake has been accepted.
    pub open spec fn greeted(&self) -> bool {
        self.client_kind is Some
    }

    /// An account is logged in.
    pub open spec fn authenticated(&self) -> bool {
        self.account_name is Some
    }

    /// A character is in the running game.
    pub open spec fn in_game(&self) -> bool {
        self.player_id is Some
    }

    /// The stages of a connection come in order: only a greeted client is
    /// authenticated, and only an authenticated one rolls attributes, plays or
    /// is admin, the latter with an eligible account only. NPC accounts are
    /// never eligible.
    pub open spec fn coherent(&self) -> bool {
        &&& self.authenticated() ==> self.greeted()
        &&& self.in_game() ==> self.authenticated() && self.character_name is Some
        &&& self.pending_character_attributes is Some ==> self.authenticated()
        &&& self.is_admin ==> self.admin_eligible && self.authenticated()
        &&& self.is_official_npc ==> self.authenticated() && !self.admin_eligible
    }

    /// A client that connected at `now`, a moment of `clock`.
    pub fn connected(client_ip: ClientIp, clock: Clock, now: u128) -> (res: ConnectionState)
        ensures
            res == (ConnectionState {
                client_ip,
                client_kind: None,
                must_close: false,
                account_name: None,
                player_id: None,
                character_name: None,
                pending_character_attributes: None,
                clock,
                connected_at: now,
                last_heartbeat: now,
                is_official_npc: false,
                admin_eligible: false,
                is_admin: false,
            }),
            res.coherent(),
    {
        ConnectionState {
            client_ip,
            client_kind: None,
            must_close: false,
            account_name: None,
            player_id: None,
            character_name: None,
            pending_character_attributes: None,
            clock,
            connected_at: now,
            last_heartbeat: now,
            is_official_npc: false,
            admin_eligible: false,
            is_admin: false,
        }
    }

    /// A client that has just connected. Its moments are read from a clock of its
    /// own, so their value is not stated.
    pub fn new(client_ip: ClientIp) -> (res: ConnectionState)
        ensures
            res.client_ip == client_ip,
            !res.greeted(),
            !res.must_close,
            !res.authenticated(),
            !res.in_game(),
            res.character_name is None,
            res.pending_character_attributes is None,
            res.last_heartbeat == res.connected_at,
            !res.is_official_npc,
            !res.admin_eligible,
            !res.is_admin,
            res.coherent(),
    {
        let clock = Clock::start();
        let now: u128 = clock.now();
        ConnectionState::connected(client_ip, clock, now)
    }

    /// The account that is logged in, or the refusal for a client without one.
    pub fn require_auth(&self) -> (res: Result<String, Vec<ServerMessage>>)
        ensures
            match res {
                Ok(name) => self.account_name == Some(name),
                Err(replies) => !self.authenticated() && character_error(
                    replies@,
                    "Authenticate first"@,
                ),
            },
    {
        match &self.account_name {
            Some(name) => Ok(name.clone()),
            None => Err(refuse_character("Authenticate first")),
        }
    }

    /// The class may be played on this connection.
    pub open spec fn may_play(&self, class: CharacterClass) -> bool {
        self.is_official_npc || class.selectable()
    }

    /// Merchant and Guard are reserved for operator-run NPCs; this catches
    /// clients that ask for them all the same.
    pub fn require_selectable_class(&self, class: &CharacterClass) -> (res: Result<
        (),
        Vec<ServerMessage>,
    >)
        ensures
            match res {
                Ok(_) => self.may_play(*class),
                Err(replies) => !self.may_play(*class) && character_error(
                    replies@,
                    class_refusal(*class),
                ),
            },
    {
        if self.is_official_npc || class.is_player_selectable() {
            return Ok(());
        }
        let mut text = "The ".to_owned();
        text.append(class.as_str());
        text.append(" class is not available");
        Err(refuse_character(text.as_str()))
    }

    /// Refuses what `action` names while a character is in game.
    pub fn require_not_in_game(&self, action: &str) -> (res: Result<(), Vec<ServerMessage>>)
        ensures
            match res {
                Ok(_) => !self.in_game(),
                Err(replies) => self.in_game() && character_error(
                    replies@,
                    in_game_refusal(action@),
                ),
            },
    {
        if self.player_id.is_some() {
            let mut text = "Cannot ".to_owned();
            text.append(action);
            text.append(" while in game");
            Err(refuse_character(text.as_str()))
        } else {
            Ok(())
        }
    }
}

/// Refusal of a class that players may not pick.
pub open spec fn class_refusal(class: CharacterClass) -> Seq<char> {
    "The "@ + class.name() + " class is not available"@
}

/// Refusal of `action` while in game.
pub open spec fn in_game_refusal(action: Seq<char>) -> Seq<char> {
    "Cannot "@ + action + " while in game"@
}

/// Refusal of a client that speaks protocol version `sent`.
pub open spec fn version_refusal(sent: u32) -> Seq<char> {
    "Protocol v"@ + decimal(PROTOCOL_VERSION as nat) + " required, you sent v"@ + decimal(
        sent as nat,
    ) + " — "@ + CLIENT_UPDATE_HINT@
}

/// Refusal of a client that talks before it introduced itself.
pub open spec fn early_refusal() -> Seq<char> {
    "Send ClientInfo first — "@ + CLIENT_UPDATE_HINT@
}

/// What the handshake gate does with a message: the state before and after it,
/// and its answer. `None` lets the message through.
pub open spec fn handshake(
    msg: ClientMessage,
    before: ConnectionState,
    after: ConnectionState,
    answer: Option<Seq<ServerMessage>>,
) -> bool {
    match msg {
        ClientMessage::ClientInfo { protocol_version, client_kind, .. } => {
            if before.greeted() {
                // A repeat is ignored.
                after == before && answer == Some(Seq::<ServerMessage>::empty())
            } else if protocol_version != PROTOCOL_VERSION {
                &&& after == (ConnectionState { must_close: true, ..before })
                &&& answer matches Some(replies)
                &&& auth_error(replies, version_refusal(protocol_version))
            } else {
                &&& after == (ConnectionState {
                    client_kind: Some(kind_named(client_kind@)),
                    ..before
                })
                &&& answer == Some(Seq::<ServerMessage>::empty())
            }
        },
        _ => {
            if before.greeted() {
                after == before && answer is None
            } else {
                &&& after == (ConnectionState { must_close: true, ..before })
                &&& answer matches Some(replies)
                &&& auth_error(replies, early_refusal())
            }
        },
    }
}

/// Protocol handshake gate, run before every other message.
///
/// `ClientInfo` must be the first message on a connection and must carry this
/// server's exact `PROTOCOL_VERSION`; anything else is refused with an
/// `AuthError` naming the mismatch, and the connection is closed.
///
/// Returns `Some(responses)` when the message was consumed (handshake or
/// rejection), `None` when the caller should keep handling it.
pub fn handle_handshake(client_msg: &ClientMessage, state: &mut ConnectionState) -> (res: Option<
    Vec<ServerMessage>,
>)
    ensures
        handshake(
            *client_msg,
            *old(state),
            *final(state),
            match res {
                Some(replies) => Some(replies@),
                None => None,
            },
        ),
{
    match client_msg {
        ClientMessage::ClientInfo { protocol_version, client_kind, .. } => {
            if state.client_kind.is_some() {
                return Some(vec![]);
            }
            if *protocol_version != PROTOCOL_VERSION {
                state.must_close = true;
                let mut text = "Protocol v".to_owned();
                text.append(decimal_text(PROTOCOL_VERSION as u64).as_str());
                text.append(" required, you sent v");
                text.append(decimal_text(*protocol_version as u64).as_str());
                text.append(" — ");
                text.append(CLIENT_UPDATE_HINT);
                return Some(refuse_auth(text.as_str()));
            }
            state.client_kind = Some(ClientKind::from_reported(client_kind.as_str()));
            Some(vec![])
        },
        _ => {
            if state.client_kind.is_none() {
                state.must_close = true;
                let mut text = "Send ClientInfo first — ".to_owned();
                text.append(CLIENT_UPDATE_HINT);
                return Some(refuse_auth(text.as_str()));
            }
            None
        },
    }
}

/// Why the handshake gate refuses a message; `None` where it does not.
pub open spec fn refusal_reason(state: ConnectionState, msg: ClientMessage) -> Option<
    RefusalReason,
> {
    if state.greeted() {
        None
    } else {
        match msg {
            ClientMessage::ClientInfo { protocol_version, .. } => if protocol_version
                != PROTOCOL_VERSION {
                Some(RefusalReason::WrongVersion)
            } else {
                None
            },
            _ => Some(RefusalReason::EarlyMessage),
        }
    }
}

/// Why the handshake gate is going to refuse a message; `None` where it is not.
pub fn handshake_refusal(client_msg: &ClientMessage, state: &ConnectionState) -> (res: Option<
    RefusalReason,
>)
    ensures
        res == refusal_reason(*state, *client_msg),
{
    if state.client_kind.is_some() {
        return None;
    }
    match client_msg {
        ClientMessage::ClientInfo { protocol_version, .. } => {
            if *protocol_version != PROTOCOL_VERSION {
                Some(RefusalReason::WrongVersion)
            } else {
                None
            }
        },
        _ => Some(RefusalReason::EarlyMessage),
    }
}

/// A chat line that sets or clears the server notice.
pub open spec fn notice_command(text: Seq<char>) -> bool {
    text == "/notice"@ || "/notice "@.is_prefix_of(text)
}

/// Debug and cheat messages, which only admins may send.
pub open spec fn admin_only(msg: ClientMessage) -> bool {
    match msg {
        ClientMessage::DebugTeleport { .. } => true,
        ClientMessage::DebugDropItem { .. } => true,
        ClientMessage::DebugSetTime { .. } => true,
        ClientMessage::DebugResetDungeonProps { .. } => true,
        ClientMessage::ChatMessage { message } => "/give "@.is_prefix_of(message@)
            || notice_command(message@),
        _ => false,
    }
}

/// Debug/cheat messages every new Debug* variant must be added to; anything
/// listed here is dropped before dispatch unless the connection is admin.
pub fn requires_admin(msg: &ClientMessage) -> (res: bool)
    ensures
        res == admin_only(*msg),
{
    match msg {
        ClientMessage::DebugTeleport { .. } => true,
        ClientMessage::DebugDropItem { .. } => true,
        ClientMessage::DebugSetTime { .. } => true,
        ClientMessage::DebugResetDungeonProps { .. } => true,
        ClientMessage::ChatMessage { message } => {
            let text = message.as_str();
            starts_with(text, "/give ") || same_text(text, "/notice") || starts_with(
                text,
                "/notice ",
            )
        },
        _ => false,
    }
}

} // verus!
