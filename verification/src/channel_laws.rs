//! What keeps a connection alive, what ends it, and what it is told then.

use crate::address::ClientIp;
use crate::auth::AuthContext;
use crate::channel::{
    admission, after_replies, charged_after_upgrade, ends_session, on_broadcast, on_event,
    on_incoming, on_session_end, on_tick, Broadcast, BroadcastVerdict, ControlFrame, DetachStep,
    Incoming, LoopEvent, LoopStep, PreAuthMeter, TickOutcome, Verdict,
};
use crate::connection::ConnectionState;
use crate::messages::{ClientMessage, ServerMessage};
use crate::session::{handle_client_message, Action};
use vstd::prelude::*;

verus! {

/// A heartbeat keeps a player connected: after one at `beat`, whenever the client
/// connected, no check before 31 seconds have gone by drops it or sends it anything,
/// and every check from then on drops it with the idle code.
pub proof fn law_heartbeat_keeps_a_player_connected(
    before: &mut ConnectionState,
    ctx: &AuthContext,
    beat: u128,
    action: Action,
    state: &ConnectionState,
    check: u128,
    res: TickOutcome,
)
    requires
        call_ensures(
            handle_client_message,
            (before, ClientMessage::Heartbeat, ctx, beat),
            action,
        ),
        old(before).client_kind is Some,
        old(before).account_name is Some,
        old(before).player_id is Some,
        *state == *final(before),
        call_ensures(on_tick, (state, check), res),
    ensures
        check < beat + 31_000_000_000 ==> !res.dropped && res.frames@.len() == 0,
        check >= beat + 31_000_000_000 ==> {
            &&& res.dropped
            &&& res.frames@.len() == 1
            &&& res.frames@[0] matches ControlFrame::Close { code, reason }
            &&& code == 4003
            &&& reason@ == "no heartbeat"@
        },
{
}

/// A player whose last heartbeat is at most 30 whole seconds old is left alone by a
/// timeout check, and one whose last heartbeat is older is dropped, however long
/// the connection has been there.
pub proof fn law_players_live_by_their_heartbeat(
    state: &ConnectionState,
    check: u128,
    res: TickOutcome,
)
    requires
        call_ensures(on_tick, (state, check), res),
        state.account_name is Some,
        state.player_id is Some,
    ensures
        res.dropped <==> check - state.last_heartbeat >= 31_000_000_000,
        !res.dropped ==> res.frames@.len() == 0,
        res.dropped ==> {
            &&& res.frames@.len() == 1
            &&& res.frames@[0] matches ControlFrame::Close { code, reason }
            &&& code == 4003
            &&& reason@ == "no heartbeat"@
        },
{
}

/// A client that does not log in is pinged at every check for 60 whole seconds from
/// the moment it connected, and dropped with the idle code after that, whatever its
/// heartbeats.
pub proof fn law_clients_have_a_minute_to_log_in(
    state: &ConnectionState,
    check: u128,
    res: TickOutcome,
)
    requires
        call_ensures(on_tick, (state, check), res),
        state.account_name is None,
        state.player_id is None,
    ensures
        res.frames@.len() == 1,
        res.dropped <==> check - state.connected_at >= 61_000_000_000,
        !res.dropped ==> res.frames@[0] is Ping,
        res.dropped ==> {
            &&& res.frames@[0] matches ControlFrame::Close { code, reason }
            &&& code == 4003
            &&& reason@ == "login did not complete in time"@
        },
{
}

/// A client that is choosing its character is neither pinged nor dropped.
pub proof fn law_choosing_takes_as_long_as_it_takes(
    state: &ConnectionState,
    check: u128,
    res: TickOutcome,
)
    requires
        call_ensures(on_tick, (state, check), res),
        state.account_name is Some,
        state.player_id is None,
    ensures
        !res.dropped,
        res.frames@.len() == 0,
{
}

/// After login frames are neither counted nor limited: binary ones are handled,
/// closing ones end the connection, others are passed over.
pub proof fn law_frames_after_login_are_not_limited(
    state: &ConnectionState,
    meter: &mut PreAuthMeter,
    incoming: Incoming,
    res: Verdict,
)
    requires
        call_ensures(on_incoming, (state, meter, incoming), res),
        state.account_name is Some,
    ensures
        final(meter).count == old(meter).count,
        incoming matches Incoming::Frame { kind, .. } ==> {
            &&& kind is Binary ==> res is Handle
            &&& kind is Close ==> res is Drop
            &&& kind is Other ==> res is Ignore
        },
        incoming is Failed || incoming is Ended ==> res is Drop,
{
}

/// Before login every frame counts, whatever its kind. Up to the thirtieth, and up
/// to 8192 bytes, a frame is treated by its kind; any other drops the connection.
pub proof fn law_frames_before_login_are_limited(
    state: &ConnectionState,
    meter: &mut PreAuthMeter,
    incoming: Incoming,
    res: Verdict,
)
    requires
        call_ensures(on_incoming, (state, meter, incoming), res),
        state.account_name is None,
    ensures
        incoming matches Incoming::Frame { kind, len } ==> {
            &&& final(meter).count == old(meter).count + 1
            &&& old(meter).count >= 30 || len > 8192 ==> res is Drop
            &&& old(meter).count < 30 && len <= 8192 ==> {
                &&& kind is Binary ==> res is Handle
                &&& kind is Close ==> res is Drop
                &&& kind is Other ==> res is Ignore
            }
        },
        incoming is Failed || incoming is Ended ==> res is Drop && final(meter).count == old(
            meter,
        ).count,
{
}

/// The world's broadcasts go to clients with an account and to no others; falling
/// behind is no reason to end, the end of the broadcasts is.
pub proof fn law_broadcasts_go_to_accounts(
    state: &ConnectionState,
    broadcast: Broadcast,
    res: BroadcastVerdict,
)
    requires
        call_ensures(on_broadcast, (state, broadcast), res),
    ensures
        broadcast is World && state.account_name is Some ==> res is Forward,
        broadcast is World && state.account_name is None ==> res is Ignore,
        broadcast is Lagged ==> res is Ignore,
        broadcast is Closed ==> res is Drop,
{
}

/// The loop does with a frame, a broadcast or a check what the verdict on it says:
/// it handles, forwards, waits or ends, and sends what the check wants sent.
pub proof fn law_loop_follows_the_verdicts(
    state: &ConnectionState,
    meter: &mut PreAuthMeter,
    event: LoopEvent,
    res: LoopStep,
)
    requires
        call_ensures(on_event, (state, meter, event), res),
    ensures
        match event {
            LoopEvent::Shutdown => res.next is End && res.frames@.len() == 0,
            LoopEvent::ForwardFailed => res.next is End && res.frames@.len() == 0,
            LoopEvent::Delivered { ends } => {
                &&& res.frames@.len() == 0
                &&& ends ==> res.next is End
                &&& !ends ==> res.next is Wait
            },
            LoopEvent::Broadcast(broadcast) => {
                &&& res.frames@.len() == 0
                &&& broadcast is Closed ==> res.next is End
                &&& broadcast is Lagged ==> res.next is Wait
                &&& broadcast is World && state.account_name is Some ==> res.next is Forward
                &&& broadcast is World && state.account_name is None ==> res.next is Wait
            },
            LoopEvent::Answered => {
                &&& !state.must_close ==> res.next is Wait && res.frames@.len() == 0
                &&& state.must_close ==> {
                    &&& res.next is End
                    &&& res.frames@.len() == 1
                    &&& res.frames@[0] matches ControlFrame::Close { code, reason }
                    &&& code == 4001
                    &&& reason@ == "protocol mismatch"@
                }
            },
            LoopEvent::Incoming(incoming) => {
                &&& res.frames@.len() == 0
                &&& incoming is Failed || incoming is Ended ==> res.next is End
                &&& incoming matches Incoming::Frame { kind, len } ==> {
                    let limited = state.account_name is None && (old(meter).count >= 30 || len
                        > 8192);
                    &&& limited ==> res.next is End
                    &&& !limited && kind is Binary ==> res.next is Handle
                    &&& !limited && kind is Close ==> res.next is End
                    &&& !limited && kind is Other ==> res.next is Wait
                }
            },
            LoopEvent::Tick { .. } => res.next is End || res.next is Wait,
        },
        final(meter).count == old(meter).count + (if state.account_name is None && (
        event matches LoopEvent::Incoming(incoming) && incoming is Frame) {
            1int
        } else {
            0
        }),
{
}

/// The loop ends for a timeout exactly when the check says so, and sends just what
/// the check wants sent.
pub proof fn law_loop_obeys_the_timeout_check(
    state: &ConnectionState,
    meter: &mut PreAuthMeter,
    now: u128,
    step: LoopStep,
    outcome: TickOutcome,
)
    requires
        call_ensures(on_event, (state, meter, LoopEvent::Tick { now }), step),
        call_ensures(on_tick, (state, now), outcome),
        state.player_id is Some ==> state.account_name is Some,
    ensures
        step.next is End <==> outcome.dropped,
        step.frames@.len() == outcome.frames@.len(),
        forall|i: int|
            0 <= i < step.frames@.len() ==> same_frame(#[trigger] step.frames@[i], outcome.frames@[i]),
{
}

/// Two frames that say the same.
pub open spec fn same_frame(a: ControlFrame, b: ControlFrame) -> bool {
    match (a, b) {
        (ControlFrame::Ping, ControlFrame::Ping) => true,
        (
            ControlFrame::Close { code: c, reason: r },
            ControlFrame::Close { code: d, reason: s },
        ) => c == d && r@ == s@,
        _ => false,
    }
}

/// A kick ends the session it reaches; no other message does.
pub proof fn law_only_kicks_end_sessions(msg: &ServerMessage, res: bool)
    requires
        call_ensures(ends_session, (msg,), res),
    ensures
        res <==> *msg is Kicked,
{
}

/// A connection is closed for the protocol exactly if it was marked for it.
pub proof fn law_marked_connections_are_closed(state: &ConnectionState, res: Option<ControlFrame>)
    requires
        call_ensures(after_replies, (state,), res),
    ensures
        !state.must_close ==> res is None,
        state.must_close ==> (res matches Some(ControlFrame::Close { code, reason }) && code == 4001
            && reason@ == "protocol mismatch"@),
{
}

/// Peers on this machine, and only those, are charged after the upgrade; who is
/// turned away reads the rate-limit code, and nobody else is turned away.
pub proof fn law_local_peers_are_charged_late(
    peer: ClientIp,
    late: bool,
    allowed: bool,
    res: Option<ControlFrame>,
)
    requires
        call_ensures(charged_after_upgrade, (peer,), late),
        call_ensures(admission, (allowed,), res),
    ensures
        peer matches ClientIp::V4(octets) ==> (late <==> octets@[0] == 127),
        peer matches ClientIp::V6(segments) ==> (late <==> segments@[0] == 0 && segments@[1] == 0
            && segments@[2] == 0 && segments@[3] == 0 && segments@[4] == 0 && segments@[5] == 0
            && segments@[6] == 0 && segments@[7] == 1),
        allowed ==> res is None,
        !allowed ==> (res matches Some(ControlFrame::Close { code, reason }) && code == 4002
            && reason@ == "too many connections"@),
{
}

/// The player of an ended session is saved, then cut off from messages, then
/// forgotten as a character, then removed: its own player, and all four steps. With
/// the server draining, or with no player, nothing is done.
pub proof fn law_ended_sessions_let_go_of_their_player(
    state: &ConnectionState,
    drain_started: Option<bool>,
    res: Vec<DetachStep>,
)
    requires
        call_ensures(on_session_end, (state, drain_started), res),
    ensures
        drain_started != Some(false) || state.player_id is None ==> res@.len() == 0,
        drain_started == Some(false) ==> (state.player_id matches Some(own) ==> {
            &&& res@.len() == 4
            &&& res@[0] matches DetachStep::PersistAndDetach { player }
            &&& player == own
            &&& res@[1] matches DetachStep::UnregisterDirectChannel { player }
            &&& player == own
            &&& res@[2] matches DetachStep::UnregisterCharacter { player }
            &&& player == own
            &&& res@[3] matches DetachStep::RemovePlayer { player }
            &&& player == own
        }),
{
}

} // verus!
