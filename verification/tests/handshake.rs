use onlinerpg::address::{is_loopback, ClientIp};
use onlinerpg::character::CharacterClass;
use onlinerpg::connection::{handle_handshake, requires_admin, ConnectionState};
use onlinerpg::entity::{ClientKind, PlayerId};
use onlinerpg::messages::{ClientMessage, ServerMessage};
use onlinerpg::protocol::PROTOCOL_VERSION;

const LOCALHOST: ClientIp = ClientIp::V4([127, 0, 0, 1]);

fn client_info(protocol_version: u32, kind: &str) -> ClientMessage {
    ClientMessage::ClientInfo {
        protocol_version,
        client_kind: kind.to_string(),
        client_version: "test".to_string(),
    }
}

fn is_auth_error(responses: &Option<Vec<ServerMessage>>) -> bool {
    matches!(
        responses.as_deref(),
        Some([ServerMessage::AuthError { .. }])
    )
}

fn error_text(responses: Option<Vec<ServerMessage>>) -> String {
    match responses.as_deref() {
        Some([ServerMessage::AuthError { message }]) => message.clone(),
        other => panic!("no auth error: {other:?}"),
    }
}

#[test]
fn handshake_accepts_matching_protocol_version() {
    let mut state = ConnectionState::new(LOCALHOST);
    let responses = handle_handshake(&client_info(PROTOCOL_VERSION, "cli"), &mut state);

    assert!(responses.is_some_and(|r| r.is_empty()));
    assert_eq!(state.client_kind, Some(ClientKind::Cli));
    assert!(!state.must_close);
    // Later messages pass through once the handshake is done.
    assert!(handle_handshake(&ClientMessage::Heartbeat, &mut state).is_none());
}

#[test]
fn handshake_refuses_other_protocol_versions() {
    for version in [PROTOCOL_VERSION - 1, PROTOCOL_VERSION + 1] {
        let mut state = ConnectionState::new(LOCALHOST);
        let responses = handle_handshake(&client_info(version, "cli"), &mut state);

        assert!(is_auth_error(&responses), "v{version} should be refused");
        assert!(state.must_close);
        assert!(state.client_kind.is_none());
    }
}

#[test]
fn handshake_refuses_messages_sent_before_client_info() {
    let mut state = ConnectionState::new(LOCALHOST);
    let responses = handle_handshake(
        &ClientMessage::AuthenticateNpc {
            account_name: "npc_x".into(),
            npc_token: "t".into(),
        },
        &mut state,
    );

    assert!(is_auth_error(&responses));
    assert!(state.must_close);
}

#[test]
fn handshake_buckets_unknown_client_kinds() {
    let mut state = ConnectionState::new(LOCALHOST);
    handle_handshake(&client_info(PROTOCOL_VERSION, "totally-made-up"), &mut state);

    assert_eq!(state.client_kind, Some(ClientKind::Other));
}

#[test]
fn refusals_say_what_to_do() {
    let mut state = ConnectionState::new(LOCALHOST);
    assert_eq!(
        error_text(handle_handshake(&client_info(12, "web"), &mut state)),
        "Protocol v7 required, you sent v12 — reload the page, or update agent-client \
         (https://github.com/Julian-adv/OpenMMO)"
    );
    let mut state = ConnectionState::new(LOCALHOST);
    assert_eq!(
        error_text(handle_handshake(&ClientMessage::Heartbeat, &mut state)),
        "Send ClientInfo first — reload the page, or update agent-client \
         (https://github.com/Julian-adv/OpenMMO)"
    );
    let mut state = ConnectionState::new(LOCALHOST);
    assert!(error_text(handle_handshake(&client_info(4_294_967_295, "web"), &mut state))
        .starts_with("Protocol v7 required, you sent v4294967295 — "));
}

#[test]
fn a_repeated_client_info_is_ignored() {
    let mut state = ConnectionState::new(LOCALHOST);
    handle_handshake(&client_info(PROTOCOL_VERSION, "web"), &mut state);
    let again = handle_handshake(&client_info(1, "cli"), &mut state);
    assert!(again.is_some_and(|r| r.is_empty()));
    assert_eq!(state.client_kind, Some(ClientKind::Web));
    assert!(!state.must_close);
}

#[test]
fn operator_only_classes_are_refused_for_players() {
    let mut state = ConnectionState::new(LOCALHOST);
    assert!(state
        .require_selectable_class(&CharacterClass::Merchant)
        .is_err());
    assert!(state
        .require_selectable_class(&CharacterClass::Guard)
        .is_err());
    assert!(state
        .require_selectable_class(&CharacterClass::Ranger)
        .is_ok());

    // Operator NPCs are exactly who those classes exist for.
    state.is_official_npc = true;
    assert!(state
        .require_selectable_class(&CharacterClass::Merchant)
        .is_ok());
}

#[test]
fn requirements_name_what_is_missing() {
    let mut state = ConnectionState::new(LOCALHOST);
    match state.require_auth() {
        Err(replies) => match replies.as_slice() {
            [ServerMessage::CharacterError { message }] => assert_eq!(message, "Authenticate first"),
            other => panic!("{other:?}"),
        },
        Ok(name) => panic!("{name}"),
    }
    match state.require_selectable_class(&CharacterClass::Guard) {
        Err(replies) => match replies.as_slice() {
            [ServerMessage::CharacterError { message }] => {
                assert_eq!(message, "The guard class is not available")
            }
            other => panic!("{other:?}"),
        },
        Ok(()) => panic!("accepted"),
    }
    assert!(state.require_not_in_game("Dance").is_ok());
    state.account_name = Some("ada".to_string());
    state.player_id = Some(PlayerId::from(4));
    assert_eq!(state.require_auth().ok(), Some("ada".to_string()));
    match state.require_not_in_game("Dance") {
        Err(replies) => match replies.as_slice() {
            [ServerMessage::CharacterError { message }] => {
                assert_eq!(message, "Cannot Dance while in game")
            }
            other => panic!("{other:?}"),
        },
        Ok(()) => panic!("accepted"),
    }
}

#[test]
fn requires_admin_classifies_cheat_messages() {
    assert!(requires_admin(&ClientMessage::DebugSetTime {
        hour: 0,
        minute: 0
    }));
    assert!(requires_admin(&ClientMessage::DebugDropItem {
        item_def_id: "x".into()
    }));
    assert!(requires_admin(&ClientMessage::ChatMessage {
        message: "/give sword".into()
    }));
    assert!(requires_admin(&ClientMessage::ChatMessage {
        message: "/notice Server maintenance".into()
    }));
    assert!(requires_admin(&ClientMessage::ChatMessage {
        message: "/notice".into()
    }));
    assert!(!requires_admin(&ClientMessage::ChatMessage {
        message: "hello".into()
    }));
    assert!(!requires_admin(&ClientMessage::Heartbeat));
}

#[test]
fn cheat_commands_are_prefixes() {
    for text in ["/give", "give me", " /give sword", "/noticeboard", "say /notice"] {
        assert!(!requires_admin(&ClientMessage::ChatMessage {
            message: text.into()
        }), "{text}");
    }
}

#[test]
fn loopback_addresses() {
    assert!(is_loopback(LOCALHOST));
    assert!(is_loopback(ClientIp::V4([127, 255, 3, 9])));
    assert!(!is_loopback(ClientIp::V4([128, 0, 0, 1])));
    assert!(!is_loopback(ClientIp::V4([10, 0, 0, 127])));
    assert!(is_loopback(ClientIp::V6([0, 0, 0, 0, 0, 0, 0, 1])));
    assert!(!is_loopback(ClientIp::V6([0, 0, 0, 0, 0, 0, 0, 0])));
    assert!(!is_loopback(ClientIp::V6([0, 0, 0, 0, 0, 0xffff, 0x7f00, 1])));
    assert!(!is_loopback(ClientIp::V6([1, 0, 0, 0, 0, 0, 0, 1])));
}
