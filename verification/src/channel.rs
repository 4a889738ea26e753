//! The loop that serves one WebSocket: what to do with every tick, frame,
//! broadcast and direct message, and how a session ends.

use crate::address::{is_loopback, ClientIp};
use crate::clock::{elapsed_secs, secs_between};
use crate::connection::ConnectionState;
use crate::entity::PlayerId;
use crate::messages::ServerMessage;
use crate::protocol::{
    CLOSE_CODE_IDLE_TIMEOUT, CLOSE_CODE_PROTOCOL_MISMATCH, CLOSE_CODE_RATE_LIMITED,
};
use vstd::prelude::*;

verus! {

/// How many seconds without a heartbeat before we consider the client dead.
pub const HEARTBEAT_TIMEOUT_SECS: u64 = 30;

/// Grace period before an unauthenticated connection is dropped. Measured
/// from connect time (not heartbeats, those are accepted before login) so idle
/// sockets can't hold server resources without ever authenticating.
pub const UNAUTH_TIMEOUT_SECS: u64 = 60;

/// How often the timeouts are checked.
pub const TIMEOUT_CHECK_SECS: u64 = 10;

/// Largest message a client may send; legit ones are a few KB.
pub const MAX_WS_MESSAGE_BYTES: usize = 65536;

/// Per-connection read buffer.
pub const WS_READ_BUFFER_BYTES: usize = 16384;

/// Tighter caps until auth succeeds; legit traffic before that is just auth
/// attempts.
pub const UNAUTH_MAX_MESSAGE_BYTES: usize = 8192;

pub const UNAUTH_MAX_MESSAGES: u32 = 30;

/// A control frame the server sends.
#[derive(Debug, Clone, Copy)]
pub enum ControlFrame {
    Ping,
    Close { code: u16, reason: &'static str },
}

impl ControlFrame {
    /// A close frame with this code and reason.
    pub open spec fn closes_with(self, code: u16, text: Seq<char>) -> bool {
        self matches ControlFrame::Close { code: sent, reason } && sent == code && reason@ == text
    }
}

/// A close frame with this code and reason.
pub fn close_frame(code: u16, reason: &'static str) -> (res: ControlFrame)
    ensures
        res.closes_with(code, reason@),
{
    ControlFrame::Close { code, reason }
}

/// Whether a new connection is charged to its client only after the upgrade:
/// behind a local proxy the peer address is useless, and the upgrade request is
/// the first to name the real one. Other peers were charged when accepted.
pub fn charged_after_upgrade(peer: ClientIp) -> (res: bool)
    ensures
        res == peer.loopback(),
{
    is_loopback(peer)
}

/// How a charged client that opens sessions too fast is turned away.
pub fn admission(allowed: bool) -> (res: Option<ControlFrame>)
    ensures
        res is None <==> allowed,
        res matches Some(frame) ==> frame.closes_with(
            CLOSE_CODE_RATE_LIMITED,
            "too many connections"@,
        ),
{
    if allowed {
        None
    } else {
        Some(close_frame(CLOSE_CODE_RATE_LIMITED, "too many connections"))
    }
}

/// What a timeout check leads to: frames to send, and whether the connection is
/// dropped after them.
#[derive(Debug)]
pub struct TickOutcome {
    pub frames: Vec<ControlFrame>,
    pub dropped: bool,
}

/// The client took too long to log in.
pub open spec fn login_overdue(state: ConnectionState, now: u128) -> bool {
    !state.authenticated() && secs_between(state.connected_at, now) > UNAUTH_TIMEOUT_SECS
}

/// The client is in game and has gone quiet.
pub open spec fn heartbeat_overdue(state: ConnectionState, now: u128) -> bool {
    state.in_game() && secs_between(state.last_heartbeat, now) > HEARTBEAT_TIMEOUT_SECS
}

/// What a timeout check at `now` leads to.
pub open spec fn ticked(
    state: ConnectionState,
    now: u128,
    frames: Seq<ControlFrame>,
    dropped: bool,
) -> bool {
    let pings: nat = if !state.authenticated() && !login_overdue(state, now) {
        1
    } else {
        0
    };
    &&& dropped == (login_overdue(state, now) || heartbeat_overdue(state, now))
    &&& frames.len() == pings + (if dropped {
        1nat
    } else {
        0
    })
    &&& pings == 1 ==> frames[0] is Ping
    &&& login_overdue(state, now) ==> frames[0].closes_with(
        CLOSE_CODE_IDLE_TIMEOUT,
        "login did not complete in time"@,
    )
    &&& !login_overdue(state, now) && heartbeat_overdue(state, now) ==> frames.last().closes_with(
        CLOSE_CODE_IDLE_TIMEOUT,
        "no heartbeat"@,
    )
}

/// Periodic timeout checks: the grace period before login, and the heartbeat in
/// game. World broadcasts are withheld until login, so until then a ping is the
/// only thing telling a client that the socket is still alive.
pub fn on_tick(state: &ConnectionState, now: u128) -> (res: TickOutcome)
    ensures
        ticked(*state, now, res.frames@, res.dropped),
{
    let mut frames: Vec<ControlFrame> = Vec::new();
    if state.account_name.is_none() {
        if elapsed_secs(state.connected_at, now) > UNAUTH_TIMEOUT_SECS as u128 {
            frames.push(close_frame(CLOSE_CODE_IDLE_TIMEOUT, "login did not complete in time"));
            return TickOutcome { frames, dropped: true };
        }
        frames.push(ControlFrame::Ping);
    }
    if state.player_id.is_some() && elapsed_secs(state.last_heartbeat, now)
        > HEARTBEAT_TIMEOUT_SECS as u128 {
        frames.push(close_frame(CLOSE_CODE_IDLE_TIMEOUT, "no heartbeat"));
        return TickOutcome { frames, dropped: true };
    }
    TickOutcome { frames, dropped: false }
}

/// What kind of frame arrived.
#[derive(Debug, Clone, Copy, PartialEq, Eq, Structural)]
pub enum FrameKind {
    Binary,
    Close,
    Other,
}

/// What the socket yielded.
#[derive(Debug, Clone, Copy, PartialEq, Eq, Structural)]
pub enum Incoming {
    Frame { kind: FrameKind, len: usize },
    Failed,
    Ended,
}

/// What to do with what the socket yielded.
#[derive(Debug, Clone, Copy, PartialEq, Eq, Structural)]
pub enum Verdict {
    /// Decode and handle the message.
    Handle,
    Ignore,
    /// Drop the connection.
    Drop,
}

/// Frames taken before login.
#[derive(Debug, Clone, Copy)]
pub struct PreAuthMeter {
    pub count: u32,
}

impl PreAuthMeter {
    /// Nothing taken yet.
    pub fn new() -> (res: PreAuthMeter)
        ensures
            res.count == 0,
    {
        PreAuthMeter { count: 0 }
    }
}

/// The count after what the socket yielded.
pub open spec fn metered(authenticated: bool, count: nat, incoming: Incoming) -> nat {
    if !authenticated && incoming is Frame {
        count + 1
    } else {
        count
    }
}

/// The frame breaks the caps that hold before login, when it is number `count`.
pub open spec fn over_limit(authenticated: bool, count: nat, incoming: Incoming) -> bool {
    &&& !authenticated
    &&& incoming matches Incoming::Frame { len, .. }
    &&& len > UNAUTH_MAX_MESSAGE_BYTES || count > UNAUTH_MAX_MESSAGES
}

/// What to do with what the socket yielded, `count` frames having been taken
/// before login, this one among them.
pub open spec fn verdict(authenticated: bool, count: nat, incoming: Incoming) -> Verdict {
    if over_limit(authenticated, count, incoming) {
        Verdict::Drop
    } else {
        match incoming {
            Incoming::Frame { kind: FrameKind::Binary, .. } => Verdict::Handle,
            Incoming::Frame { kind: FrameKind::Close, .. } => Verdict::Drop,
            Incoming::Frame { kind: FrameKind::Other, .. } => Verdict::Ignore,
            Incoming::Failed => Verdict::Drop,
            Incoming::Ended => Verdict::Drop,
        }
    }
}

/// Meters and judges what the socket yielded. Metered before the kind is looked
/// at, so that no kind of frame can bypass it.
pub fn on_incoming(state: &ConnectionState, meter: &mut PreAuthMeter, incoming: Incoming) -> (res:
    Verdict)
    requires
        old(meter).count < u32::MAX,
    ensures
        final(meter).count == metered(state.authenticated(), old(meter).count as nat, incoming),
        res == verdict(state.authenticated(), final(meter).count as nat, incoming),
{
    if state.account_name.is_none() {
        if let Incoming::Frame { len, .. } = incoming {
            meter.count = meter.count + 1;
            if len > UNAUTH_MAX_MESSAGE_BYTES || meter.count > UNAUTH_MAX_MESSAGES {
                return Verdict::Drop;
            }
        }
    }
    match incoming {
        Incoming::Frame { kind, .. } => match kind {
            FrameKind::Binary => Verdict::Handle,
            FrameKind::Close => Verdict::Drop,
            FrameKind::Other => Verdict::Ignore,
        },
        Incoming::Failed => Verdict::Drop,
        Incoming::Ended => Verdict::Drop,
    }
}

/// The frame that closes a connection whose handshake was refused, once its
/// replies are out. The reason is short; the full hint went out as a reply.
pub fn after_replies(state: &ConnectionState) -> (res: Option<ControlFrame>)
    ensures
        res is Some <==> state.must_close,
        res matches Some(frame) ==> frame.closes_with(
            CLOSE_CODE_PROTOCOL_MISMATCH,
            "protocol mismatch"@,
        ),
{
    if state.must_close {
        Some(close_frame(CLOSE_CODE_PROTOCOL_MISMATCH, "protocol mismatch"))
    } else {
        None
    }
}

/// What the world broadcast channel yielded.
#[derive(Debug, Clone, Copy, PartialEq, Eq, Structural)]
pub enum Broadcast {
    World,
    /// Messages were skipped because this client lags behind.
    Lagged,
    Closed,
}

/// What to do with a world broadcast.
#[derive(Debug, Clone, Copy, PartialEq, Eq, Structural)]
pub enum BroadcastVerdict {
    Forward,
    Ignore,
    Drop,
}

/// What to do with a world broadcast: clients without an account get none of
/// the world's state.
pub open spec fn broadcast_verdict(state: ConnectionState, broadcast: Broadcast) -> BroadcastVerdict {
    match broadcast {
        Broadcast::World => if state.authenticated() {
            BroadcastVerdict::Forward
        } else {
            BroadcastVerdict::Ignore
        },
        Broadcast::Lagged => BroadcastVerdict::Ignore,
        Broadcast::Closed => BroadcastVerdict::Drop,
    }
}

/// Judges a world broadcast.
pub fn on_broadcast(state: &ConnectionState, broadcast: Broadcast) -> (res: BroadcastVerdict)
    ensures
        res == broadcast_verdict(*state, broadcast),
{
    match broadcast {
        Broadcast::World => if state.account_name.is_none() {
            BroadcastVerdict::Ignore
        } else {
            BroadcastVerdict::Forward
        },
        Broadcast::Lagged => BroadcastVerdict::Ignore,
        Broadcast::Closed => BroadcastVerdict::Drop,
    }
}

/// Whether the connection ends once this direct message is delivered.
pub fn ends_session(msg: &ServerMessage) -> (res: bool)
    ensures
        res == (*msg is Kicked),
{
    match msg {
        ServerMessage::Kicked { .. } => true,
        _ => false,
    }
}

/// What wakes up the loop that serves a connection.
#[derive(Debug, Clone, Copy, PartialEq, Eq, Structural)]
pub enum LoopEvent {
    /// The server shuts its connections down.
    Shutdown,
    /// Time for the timeout checks.
    Tick { now: u128 },
    /// The socket yielded something.
    Incoming(Incoming),
    /// The replies to a handled message are out.
    Answered,
    /// The world broadcast channel yielded something.
    Broadcast(Broadcast),
    /// A world broadcast could not be sent to the client.
    ForwardFailed,
    /// A direct message was sent; `ends` tells whether it ends the session.
    Delivered { ends: bool },
}

/// What the loop does after an event.
#[derive(Debug, Clone, Copy, PartialEq, Eq, Structural)]
pub enum LoopNext {
    /// Wait for the next event.
    Wait,
    /// Decode and handle the message that arrived, then wait.
    Handle,
    /// Send the broadcast on to the client, then wait.
    Forward,
    /// Leave the loop.
    End,
}

/// What the loop does with an event: frames to send first, then the rest.
#[derive(Debug)]
pub struct LoopStep {
    pub frames: Vec<ControlFrame>,
    pub next: LoopNext,
}

/// What the loop does with an event, `count` frames having been taken before
/// login, this one among them.
pub open spec fn served(
    state: ConnectionState,
    count: nat,
    event: LoopEvent,
    frames: Seq<ControlFrame>,
    next: LoopNext,
) -> bool {
    match event {
        LoopEvent::Shutdown | LoopEvent::ForwardFailed => frames.len() == 0 && next
            == LoopNext::End,
        LoopEvent::Tick { now } => {
            &&& ticked(state, now, frames, next == LoopNext::End)
            &&& next == LoopNext::End || next == LoopNext::Wait
        },
        LoopEvent::Incoming(incoming) => {
            &&& frames.len() == 0
            &&& next == (match verdict(state.authenticated(), count, incoming) {
                Verdict::Handle => LoopNext::Handle,
                Verdict::Ignore => LoopNext::Wait,
                Verdict::Drop => LoopNext::End,
            })
        },
        LoopEvent::Answered => if state.must_close {
            &&& next == LoopNext::End
            &&& frames.len() == 1
            &&& frames[0].closes_with(CLOSE_CODE_PROTOCOL_MISMATCH, "protocol mismatch"@)
        } else {
            frames.len() == 0 && next == LoopNext::Wait
        },
        LoopEvent::Broadcast(broadcast) => {
            &&& frames.len() == 0
            &&& next == (match broadcast_verdict(state, broadcast) {
                BroadcastVerdict::Forward => LoopNext::Forward,
                BroadcastVerdict::Ignore => LoopNext::Wait,
                BroadcastVerdict::Drop => LoopNext::End,
            })
        },
        LoopEvent::Delivered { ends } => {
            &&& frames.len() == 0
            &&& next == (if ends {
                LoopNext::End
            } else {
                LoopNext::Wait
            })
        },
    }
}

/// The count of frames taken before login, after an event.
pub open spec fn metered_event(authenticated: bool, count: nat, event: LoopEvent) -> nat {
    match event {
        LoopEvent::Incoming(incoming) => metered(authenticated, count, incoming),
        _ => count,
    }
}

/// Decides what the loop that serves a connection does with an event.
pub fn on_event(state: &ConnectionState, meter: &mut PreAuthMeter, event: LoopEvent) -> (res:
    LoopStep)
    requires
        old(meter).count < u32::MAX,
    ensures
        final(meter).count == metered_event(
            state.authenticated(),
            old(meter).count as nat,
            event,
        ),
        served(*state, final(meter).count as nat, event, res.frames@, res.next),
{
    match event {
        LoopEvent::Shutdown => LoopStep { frames: vec![], next: LoopNext::End },
        LoopEvent::ForwardFailed => LoopStep { frames: vec![], next: LoopNext::End },
        LoopEvent::Tick { now } => {
            let outcome = on_tick(state, now);
            let next = if outcome.dropped {
                LoopNext::End
            } else {
                LoopNext::Wait
            };
            LoopStep { frames: outcome.frames, next }
        },
        LoopEvent::Incoming(incoming) => {
            let next = match on_incoming(state, meter, incoming) {
                Verdict::Handle => LoopNext::Handle,
                Verdict::Ignore => LoopNext::Wait,
                Verdict::Drop => LoopNext::End,
            };
            LoopStep { frames: vec![], next }
        },
        LoopEvent::Answered => match after_replies(state) {
            Some(frame) => LoopStep { frames: vec![frame], next: LoopNext::End },
            None => LoopStep { frames: vec![], next: LoopNext::Wait },
        },
        LoopEvent::Broadcast(broadcast) => {
            let next = match on_broadcast(state, broadcast) {
                BroadcastVerdict::Forward => LoopNext::Forward,
                BroadcastVerdict::Ignore => LoopNext::Wait,
                BroadcastVerdict::Drop => LoopNext::End,
            };
            LoopStep { frames: vec![], next }
        },
        LoopEvent::Delivered { ends } => {
            let next = if ends {
                LoopNext::End
            } else {
                LoopNext::Wait
            };
            LoopStep { frames: vec![], next }
        },
    }
}

/// One step of taking a player out of the running game.
#[derive(Debug, Clone, Copy, PartialEq, Eq, Structural)]
pub enum DetachStep {
    PersistAndDetach { player: PlayerId },
    UnregisterDirectChannel { player: PlayerId },
    UnregisterCharacter { player: PlayerId },
    RemovePlayer { player: PlayerId },
}

/// The steps that take the player of an ended connection out of the game.
/// `drain_started` is what the server's drain signal says; `None` means that it
/// is gone, which only happens once the drain is under way.
pub open spec fn detachment(state: ConnectionState, drain_started: Option<bool>) -> Seq<DetachStep> {
    if drain_started == Some(false) && state.in_game() {
        let player = state.player_id->0;
        seq![
            DetachStep::PersistAndDetach { player },
            DetachStep::UnregisterDirectChannel { player },
            DetachStep::UnregisterCharacter { player },
            DetachStep::RemovePlayer { player },
        ]
    } else {
        seq![]
    }
}

/// The steps that take the player of an ended connection out of the game. Once
/// the server drains, its final snapshot persists every connected player and
/// needs them left in place.
pub fn on_session_end(state: &ConnectionState, drain_started: Option<bool>) -> (res: Vec<DetachStep>)
    ensures
        res@ == detachment(*state, drain_started),
{
    let draining = match drain_started {
        Some(started) => started,
        None => true,
    };
    if draining {
        return vec![];
    }
    match state.player_id {
        Some(player) => vec![
            DetachStep::PersistAndDetach { player },
            DetachStep::UnregisterDirectChannel { player },
            DetachStep::UnregisterCharacter { player },
            DetachStep::RemovePlayer { player },
        ],
        None => vec![],
    }
}

/// Once the server drains, no ended session takes its player out of the game: the
/// final snapshot finds every connected player in place.
pub proof fn law_draining_server_keeps_its_players(
    state: ConnectionState,
    drain_started: Option<bool>,
)
    requires
        drain_started != Some(false),
    ensures
        detachment(state, drain_started).len() == 0,
{
}

/// Before that, the player of an ended session is saved first and removed last.
pub proof fn law_ended_session_saves_then_removes(state: ConnectionState, player: PlayerId)
    requires
        state.player_id == Some(player),
    ensures
        detachment(state, Some(false)).first() == (DetachStep::PersistAndDetach { player }),
        detachment(state, Some(false)).last() == (DetachStep::RemovePlayer { player }),
{
}

/// A client without an account is never sent the state of the world.
pub proof fn law_no_world_state_before_login(
    state: ConnectionState,
    count: nat,
    event: LoopEvent,
    frames: Seq<ControlFrame>,
    next: LoopNext,
)
    requires
        !state.authenticated(),
        served(state, count, event, frames, next),
    ensures
        next != LoopNext::Forward,
{
}

/// The reasons a connection ends for, and no others: a shutdown, a timeout, a
/// refused handshake, a frame over the limits, the client leaving or the socket
/// failing, the broadcast ending or failing, and a message that ends the
/// session.
pub proof fn law_reasons_to_end(
    state: ConnectionState,
    count: nat,
    event: LoopEvent,
    frames: Seq<ControlFrame>,
    next: LoopNext,
)
    requires
        served(state, count, event, frames, next),
    ensures
        next == LoopNext::End <==> match event {
            LoopEvent::Shutdown | LoopEvent::ForwardFailed => true,
            LoopEvent::Tick { now } => login_overdue(state, now) || heartbeat_overdue(state, now),
            LoopEvent::Incoming(incoming) => {
                ||| over_limit(state.authenticated(), count, incoming)
                ||| incoming is Failed
                ||| incoming is Ended
                ||| incoming matches Incoming::Frame { kind: FrameKind::Close, .. }
            },
            LoopEvent::Answered => state.must_close,
            LoopEvent::Broadcast(broadcast) => broadcast is Closed,
            LoopEvent::Delivered { ends } => ends,
        },
{
}

/// Whenever the server closes a connection of its own accord it says why: with
/// the protocol code after a refused handshake, with the idle code after a
/// timeout.
pub proof fn law_the_server_says_why(
    state: ConnectionState,
    count: nat,
    event: LoopEvent,
    frames: Seq<ControlFrame>,
    next: LoopNext,
)
    requires
        served(state, count, event, frames, next),
        next == LoopNext::End,
        event is Tick || event is Answered,
    ensures
        frames.len() > 0,
        frames.last() matches ControlFrame::Close { code, .. } && code == (if event is Tick {
            CLOSE_CODE_IDLE_TIMEOUT
        } else {
            CLOSE_CODE_PROTOCOL_MISMATCH
        }),
{
}

/// A timeout check sends at most one frame to a coherent connection.
pub proof fn law_tick_sends_at_most_one_frame(
    state: ConnectionState,
    now: u128,
    frames: Seq<ControlFrame>,
    dropped: bool,
)
    requires
        state.coherent(),
        ticked(state, now, frames, dropped),
    ensures
        frames.len() <= 1,
        dropped ==> frames.len() == 1 && frames[0] is Close,
{
}

/// A client that is logged in but not in game is left alone by the timeouts.
pub proof fn law_character_screen_does_not_time_out(
    state: ConnectionState,
    now: u128,
    frames: Seq<ControlFrame>,
    dropped: bool,
)
    requires
        state.authenticated(),
        !state.in_game(),
        ticked(state, now, frames, dropped),
    ensures
        !dropped,
        frames.len() == 0,
{
}

/// The count after a run of what the socket yielded before login, from zero.
pub open spec fn count_after(yielded: Seq<Incoming>) -> nat
    decreases yielded.len(),
{
    if yielded.len() == 0 {
        0
    } else {
        metered(false, count_after(yielded.drop_last()), yielded.last())
    }
}

/// A client that never logs in has at most `UNAUTH_MAX_MESSAGES` frames taken:
/// whatever it sends after that many drops the connection.
pub proof fn law_frames_before_login_are_capped(yielded: Seq<Incoming>, next: Incoming)
    requires
        yielded.len() >= UNAUTH_MAX_MESSAGES,
        forall|i: int| 0 <= i < yielded.len() ==> #[trigger] yielded[i] is Frame,
    ensures
        verdict(false, metered(false, count_after(yielded), next), next) == Verdict::Drop,
{
    lemma_count_is_number_of_frames(yielded);
}

proof fn lemma_count_is_number_of_frames(yielded: Seq<Incoming>)
    requires
        forall|i: int| 0 <= i < yielded.len() ==> #[trigger] yielded[i] is Frame,
    ensures
        count_after(yielded) == yielded.len(),
    decreases yielded.len(),
{
    if yielded.len() > 0 {
        assert forall|i: int| 0 <= i < yielded.drop_last().len() implies #[trigger] yielded.drop_last()[i] is Frame by {
            assert(yielded.drop_last()[i] == yielded[i]);
        }
        lemma_count_is_number_of_frames(yielded.drop_last());
        assert(yielded[yielded.len() - 1] is Frame);
    }
}

/// As long as a connection goes on, the count of frames taken before login stays
/// within the cap, so it can never run over.
pub proof fn law_count_stays_within_the_cap(
    state: ConnectionState,
    count: nat,
    event: LoopEvent,
    frames: Seq<ControlFrame>,
    next: LoopNext,
)
    requires
        count <= UNAUTH_MAX_MESSAGES,
        served(state, metered_event(state.authenticated(), count, event), event, frames, next),
        next != LoopNext::End,
    ensures
        metered_event(state.authenticated(), count, event) <= UNAUTH_MAX_MESSAGES,
{
}

/// Before login no frame over the size cap is handled, whatever its kind.
pub proof fn law_large_frames_before_login_drop(count: nat, kind: FrameKind, len: usize)
    requires
        len > UNAUTH_MAX_MESSAGE_BYTES,
    ensures
        verdict(false, count, Incoming::Frame { kind, len }) == Verdict::Drop,
{
}

} // verus!
