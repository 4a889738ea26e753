use onlinerpg::address::ClientIp;
use onlinerpg::channel::{
    admission, after_replies, charged_after_upgrade, ends_session, on_broadcast, on_event,
    on_incoming, on_session_end, on_tick, Broadcast, BroadcastVerdict, ControlFrame, DetachStep,
    FrameKind, Incoming, LoopEvent, LoopNext, PreAuthMeter, Verdict, UNAUTH_MAX_MESSAGES,
    UNAUTH_MAX_MESSAGE_BYTES,
};
use onlinerpg::connection::ConnectionState;
use onlinerpg::entity::PlayerId;
use onlinerpg::messages::ServerMessage;

const SEC: u128 = 1_000_000_000;

fn fresh() -> ConnectionState {
    let mut state = ConnectionState::new(ClientIp::V4([10, 0, 0, 9]));
    state.connected_at = 100 * SEC;
    state.last_heartbeat = 100 * SEC;
    state
}

fn logged_in() -> ConnectionState {
    let mut state = fresh();
    state.account_name = Some("ann".to_string());
    state
}

fn playing() -> ConnectionState {
    let mut state = logged_in();
    state.player_id = Some(PlayerId(3));
    state.character_name = Some("Ayla".to_string());
    state
}

fn closes(frame: &ControlFrame, code: u16, text: &str) -> bool {
    matches!(frame, ControlFrame::Close { code: c, reason } if *c == code && *reason == text)
}

#[test]
fn only_proxied_clients_are_charged_after_the_upgrade() {
    assert!(charged_after_upgrade(ClientIp::V4([127, 3, 2, 1])));
    assert!(charged_after_upgrade(ClientIp::V6([0, 0, 0, 0, 0, 0, 0, 1])));
    assert!(!charged_after_upgrade(ClientIp::V4([10, 0, 0, 9])));
    assert!(admission(true).is_none());
    assert!(closes(
        &admission(false).unwrap(),
        4002,
        "too many connections"
    ));
}

#[test]
fn a_client_that_never_logs_in_is_pinged_and_then_dropped() {
    let state = fresh();
    for now in [0, 100 * SEC, 130 * SEC, 161 * SEC - 1] {
        let outcome = on_tick(&state, now);
        assert!(!outcome.dropped);
        assert!(matches!(outcome.frames.as_slice(), [ControlFrame::Ping]));
    }
    let outcome = on_tick(&state, 161 * SEC);
    assert!(outcome.dropped);
    assert_eq!(outcome.frames.len(), 1);
    assert!(closes(
        &outcome.frames[0],
        4003,
        "login did not complete in time"
    ));
}

#[test]
fn a_quiet_player_is_dropped() {
    let outcome = on_tick(&playing(), 131 * SEC - 1);
    assert!(!outcome.dropped);
    assert!(outcome.frames.is_empty());
    let outcome = on_tick(&playing(), 131 * SEC);
    assert!(outcome.dropped);
    assert_eq!(outcome.frames.len(), 1);
    assert!(closes(&outcome.frames[0], 4003, "no heartbeat"));
}

#[test]
fn the_character_screen_does_not_time_out() {
    let outcome = on_tick(&logged_in(), 1_000_000 * SEC);
    assert!(!outcome.dropped);
    assert!(outcome.frames.is_empty());
}

#[test]
fn frames_before_login_are_counted_and_capped() {
    let state = fresh();
    let mut meter = PreAuthMeter::new();
    let small = Incoming::Frame {
        kind: FrameKind::Other,
        len: 1,
    };
    for _ in 0..UNAUTH_MAX_MESSAGES {
        assert_eq!(on_incoming(&state, &mut meter, small), Verdict::Ignore);
    }
    assert_eq!(meter.count, 30);
    assert_eq!(on_incoming(&state, &mut meter, small), Verdict::Drop);
    assert_eq!(on_incoming(&logged_in(), &mut meter, small), Verdict::Ignore);
    assert_eq!(meter.count, 31);
}

#[test]
fn large_frames_before_login_drop_the_connection() {
    for kind in [FrameKind::Binary, FrameKind::Other] {
        let mut meter = PreAuthMeter::new();
        let at_cap = Incoming::Frame {
            kind,
            len: UNAUTH_MAX_MESSAGE_BYTES,
        };
        let over = Incoming::Frame { kind, len: 8193 };
        assert_ne!(on_incoming(&fresh(), &mut meter, at_cap), Verdict::Drop);
        assert_eq!(on_incoming(&fresh(), &mut meter, over), Verdict::Drop);
        assert_ne!(on_incoming(&logged_in(), &mut meter, over), Verdict::Drop);
    }
}

#[test]
fn frames_are_judged_by_kind() {
    let mut meter = PreAuthMeter::new();
    let frame = |kind| Incoming::Frame { kind, len: 9 };
    for state in [fresh(), playing()] {
        for (incoming, expected) in [
            (frame(FrameKind::Binary), Verdict::Handle),
            (frame(FrameKind::Other), Verdict::Ignore),
            (frame(FrameKind::Close), Verdict::Drop),
            (Incoming::Failed, Verdict::Drop),
            (Incoming::Ended, Verdict::Drop),
        ] {
            assert_eq!(on_incoming(&state, &mut meter, incoming), expected);
        }
    }
    assert_eq!(meter.count, 3);
}

#[test]
fn world_state_is_for_accounts() {
    for (state, broadcast, expected) in [
        (fresh(), Broadcast::World, BroadcastVerdict::Ignore),
        (logged_in(), Broadcast::World, BroadcastVerdict::Forward),
        (fresh(), Broadcast::Lagged, BroadcastVerdict::Ignore),
        (playing(), Broadcast::Lagged, BroadcastVerdict::Ignore),
        (playing(), Broadcast::Closed, BroadcastVerdict::Drop),
    ] {
        assert_eq!(on_broadcast(&state, broadcast), expected);
    }
}

#[test]
fn a_refused_handshake_closes_after_the_replies() {
    let mut state = fresh();
    assert!(after_replies(&state).is_none());
    state.must_close = true;
    assert!(closes(
        &after_replies(&state).unwrap(),
        4001,
        "protocol mismatch"
    ));
}

#[test]
fn a_kick_ends_the_session() {
    assert!(ends_session(&ServerMessage::Kicked {
        player_id: PlayerId(3),
        reason: "Logged in elsewhere".to_string()
    }));
    assert!(!ends_session(&ServerMessage::GoldUpdate { gold: 1 }));
}

#[test]
fn the_loop_follows_its_events() {
    let mut meter = PreAuthMeter::new();
    let binary = LoopEvent::Incoming(Incoming::Frame {
        kind: FrameKind::Binary,
        len: 20,
    });
    for (state, event, expected) in [
        (playing(), LoopEvent::Shutdown, LoopNext::End),
        (playing(), LoopEvent::Tick { now: 110 * SEC }, LoopNext::Wait),
        (playing(), LoopEvent::Tick { now: 131 * SEC }, LoopNext::End),
        (playing(), binary, LoopNext::Handle),
        (playing(), LoopEvent::Answered, LoopNext::Wait),
        (
            playing(),
            LoopEvent::Broadcast(Broadcast::World),
            LoopNext::Forward,
        ),
        (
            fresh(),
            LoopEvent::Broadcast(Broadcast::World),
            LoopNext::Wait,
        ),
        (
            fresh(),
            LoopEvent::Broadcast(Broadcast::Closed),
            LoopNext::End,
        ),
        (playing(), LoopEvent::ForwardFailed, LoopNext::End),
        (playing(), LoopEvent::Delivered { ends: false }, LoopNext::Wait),
        (playing(), LoopEvent::Delivered { ends: true }, LoopNext::End),
    ] {
        assert_eq!(on_event(&state, &mut meter, event).next, expected, "{event:?}");
    }
    let mut refused = fresh();
    refused.must_close = true;
    let step = on_event(&refused, &mut meter, LoopEvent::Answered);
    assert_eq!(step.next, LoopNext::End);
    assert!(closes(&step.frames[0], 4001, "protocol mismatch"));
}

#[test]
fn an_ended_session_detaches_its_player_unless_the_server_drains() {
    let player = PlayerId(3);
    assert_eq!(
        on_session_end(&playing(), Some(false)),
        [
            DetachStep::PersistAndDetach { player },
            DetachStep::UnregisterDirectChannel { player },
            DetachStep::UnregisterCharacter { player },
            DetachStep::RemovePlayer { player },
        ]
    );
    assert!(on_session_end(&playing(), Some(true)).is_empty());
    assert!(on_session_end(&playing(), None).is_empty());
    assert!(on_session_end(&logged_in(), Some(false)).is_empty());
}
