//! Numbers both ends of a connection agree on.

use vstd::prelude::*;

verus! {

/// Root-relative path of the NPC auth token file: written by the server on
/// first run, read by agent clients.
pub const NPC_TOKEN_PATH_FROM_ROOT: &'static str = "data/npc_token";

/// Wire protocol version, sent in `ClientMessage::ClientInfo` and checked for
/// exact equality by the server. Bump it whenever a message shape or its
/// meaning changes.
pub const PROTOCOL_VERSION: u32 = 7;

/// WebSocket close code sent when the handshake is refused (wrong protocol
/// version, or traffic before `ClientInfo`). Never renumber it: it is the one
/// signal a stale client can still read.
pub const CLOSE_CODE_PROTOCOL_MISMATCH: u16 = 4001;

/// WebSocket close code sent when a source address opens sessions too fast.
/// Transient, so clients keep retrying on their normal backoff.
pub const CLOSE_CODE_RATE_LIMITED: u16 = 4002;

/// WebSocket close code sent when the server drops a connection for going
/// quiet: no login inside the grace period, or no heartbeat in game.
pub const CLOSE_CODE_IDLE_TIMEOUT: u16 = 4003;

} // verus!
