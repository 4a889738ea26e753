use onlinerpg::address::ClientIp;
use onlinerpg::connection::{handle_handshake, handshake_refusal, ConnectionState};
use onlinerpg::messages::ClientMessage;
use onlinerpg::protocol::PROTOCOL_VERSION;
use onlinerpg::refusal::{RefusalLog, RefusalReason};

const SEC: u128 = 1_000_000_000;

fn client_info(protocol_version: u32) -> ClientMessage {
    ClientMessage::ClientInfo {
        protocol_version,
        client_kind: "web".to_string(),
        client_version: "1".to_string(),
    }
}

#[test]
fn refusals_are_told_apart() {
    let mut state = ConnectionState::new(ClientIp::V4([10, 0, 0, 9]));
    assert_eq!(
        handshake_refusal(&client_info(PROTOCOL_VERSION + 1), &state),
        Some(RefusalReason::WrongVersion)
    );
    assert_eq!(
        handshake_refusal(&ClientMessage::Heartbeat, &state),
        Some(RefusalReason::EarlyMessage)
    );
    assert_eq!(
        handshake_refusal(&client_info(PROTOCOL_VERSION), &state),
        None
    );
    handle_handshake(&client_info(PROTOCOL_VERSION), &mut state);
    for msg in [ClientMessage::Heartbeat, client_info(PROTOCOL_VERSION + 1)] {
        assert_eq!(handshake_refusal(&msg, &state), None);
    }
}

#[test]
fn a_reason_comes_with_every_refusal() {
    for msg in [
        client_info(PROTOCOL_VERSION),
        client_info(0),
        ClientMessage::Heartbeat,
    ] {
        let mut state = ConnectionState::new(ClientIp::V4([10, 0, 0, 9]));
        let reason = handshake_refusal(&msg, &state);
        handle_handshake(&msg, &mut state);
        assert_eq!(reason.is_some(), state.must_close);
    }
}

#[test]
fn a_flood_of_one_kind_hides_no_other() {
    let mut log = RefusalLog::new();
    assert_eq!(
        log.claim_at(RefusalReason::EarlyMessage, SEC),
        Some(String::new())
    );
    for _ in 0..50 {
        assert_eq!(log.claim_at(RefusalReason::EarlyMessage, 2 * SEC), None);
    }
    for reason in [RefusalReason::WrongVersion, RefusalReason::RateLimited] {
        assert_eq!(log.claim_at(reason, 3 * SEC), Some(String::new()));
        assert_eq!(log.claim_at(reason, 3 * SEC), None);
        assert_eq!(log.throttle_of(reason).suppressed(), 1);
    }
    assert_eq!(
        log.throttle_of(RefusalReason::EarlyMessage).suppressed(),
        50
    );
    assert_eq!(
        log.claim_at(RefusalReason::EarlyMessage, 61 * SEC),
        Some(" [+50 more in the last 60s]".to_string())
    );
}

#[test]
fn claims_right_now_fold_by_reason() {
    let mut log = RefusalLog::new();
    for reason in [
        RefusalReason::WrongVersion,
        RefusalReason::EarlyMessage,
        RefusalReason::RateLimited,
    ] {
        assert_eq!(log.claim(reason), Some(String::new()));
        assert_eq!(log.claim(reason), None);
    }
}
