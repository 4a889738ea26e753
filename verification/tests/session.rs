use onlinerpg::address::ClientIp;
use onlinerpg::auth::{AuthContext, GoogleAuthVerifier, GoogleClaims};
use onlinerpg::channel::on_tick;
use onlinerpg::character::{
    CharacterAttributes, CharacterClass, CharacterRecord, Gender, HitPointQuery,
};
use onlinerpg::clock::Clock;
use onlinerpg::connection::ConnectionState;
use onlinerpg::entity::{ClientKind, PlayerId};
use onlinerpg::join::character_loaded;
use onlinerpg::messages::{ClientMessage, ServerMessage};
use onlinerpg::protocol::PROTOCOL_VERSION;
use onlinerpg::session::{
    attributes_rolled, character_deleted, character_stored, dev_logged_in, finish_auth,
    google_logged_in, google_verified, handle_client_message, hit_points_resolved, npc_logged_in,
    Action, HitPointPurpose,
};
use onlinerpg::world::Scalar;

const LOCALHOST: ClientIp = ClientIp::V4([127, 0, 0, 1]);
const ELSEWHERE: ClientIp = ClientIp::V4([203, 0, 113, 7]);
const NOW: u128 = 5_000_000_000;

const ROLL: CharacterAttributes = CharacterAttributes {
    strength: 15,
    dexterity: 14,
    con: 13,
    intelligence: 12,
    wisdom: 10,
    charisma: 8,
};

fn ctx() -> AuthContext {
    AuthContext {
        google: Some(GoogleAuthVerifier {
            client_ids: vec!["browser".to_string()],
        }),
        npc_token: "0123456789abcdef".to_string(),
        admin_emails: vec!["boss@example.com".to_string()],
        dev_auth: true,
    }
}

fn greeted(ip: ClientIp) -> ConnectionState {
    let mut state = ConnectionState::new(ip);
    let info = ClientMessage::ClientInfo {
        protocol_version: PROTOCOL_VERSION,
        client_kind: "web".to_string(),
        client_version: "1".to_string(),
    };
    let action = handle_client_message(&mut state, info, &ctx(), NOW);
    assert!(matches!(action, Action::Reply(replies) if replies.is_empty()));
    state
}

fn logged_in() -> ConnectionState {
    let mut state = greeted(LOCALHOST);
    finish_auth(&mut state, "ann".to_string(), false, Ok(vec![]));
    state
}

fn record(id: i64, name: &str) -> CharacterRecord {
    let zero = Scalar { bits: 0 };
    CharacterRecord {
        id,
        name: name.to_string(),
        created_at: 77,
        level: 3,
        xp: 900,
        max_hp: 21,
        attributes: ROLL,
        class: CharacterClass::Ranger,
        gender: Gender::Female,
        admin_role: 0,
        last_x: zero,
        last_y: zero,
        last_z: zero,
        last_rotation: zero,
        health: None,
        floor_level: 0,
        gold: 5,
    }
}

fn claims(email: &str, verified: bool) -> GoogleClaims {
    GoogleClaims {
        sub: "sub-1".to_string(),
        email: Some(email.to_string()),
        email_verified: Some(verified),
    }
}

fn refusal(action: &Action) -> String {
    match action {
        Action::Reply(replies) => match replies.as_slice() {
            [ServerMessage::AuthError { message }] => format!("auth: {message}"),
            [ServerMessage::CharacterError { message }] => format!("character: {message}"),
            [ServerMessage::SystemMessage { message }] => format!("system: {message}"),
            other => panic!("no refusal: {other:?}"),
        },
        other => panic!("no reply: {other:?}"),
    }
}

#[test]
fn early_messages_are_refused_and_close() {
    let mut state = ConnectionState::new(LOCALHOST);
    let action = handle_client_message(&mut state, ClientMessage::Heartbeat, &ctx(), NOW);
    assert!(refusal(&action).starts_with("auth: Send ClientInfo first"));
    assert!(state.must_close);
}

#[test]
fn a_heartbeat_is_remembered() {
    let mut state = greeted(LOCALHOST);
    let action = handle_client_message(&mut state, ClientMessage::Heartbeat, &ctx(), NOW);
    assert!(matches!(action, Action::Done));
    assert_eq!(state.last_heartbeat, NOW);
}

#[test]
fn google_login_needs_a_configured_client() {
    let token = || ClientMessage::Authenticate {
        google_id_token: "tok".to_string(),
    };
    let mut state = greeted(ELSEWHERE);
    let mut without = ctx();
    without.google = None;
    let action = handle_client_message(&mut state, token(), &without, NOW);
    assert_eq!(
        refusal(&action),
        "auth: Google sign-in is not configured on this server"
    );
    let action = handle_client_message(&mut state, token(), &ctx(), NOW);
    assert!(
        matches!(action, Action::VerifyGoogleToken { google_id_token } if google_id_token == "tok")
    );
}

#[test]
fn google_login_runs_to_its_end() {
    let mut state = greeted(ELSEWHERE);
    assert_eq!(
        refusal(&google_verified(None)),
        "auth: Google sign-in verification failed"
    );
    let action = google_verified(Some(claims("BOSS@example.com", true)));
    let claims = match action {
        Action::LoginGoogle { claims } => claims,
        other => panic!("{other:?}"),
    };
    assert_eq!(claims.sub, "sub-1");
    let action = google_logged_in(&mut state, &ctx(), claims, Ok("ann".to_string()));
    assert!(matches!(
        action,
        Action::ListCharacters { account_name, is_official_npc: false } if account_name == "ann"
    ));
    assert!(state.admin_eligible);
    assert!(state.account_name.is_none());
    let replies = finish_auth(
        &mut state,
        "ann".to_string(),
        false,
        Ok(vec![record(1, "Ayla"), record(2, "Bo")]),
    );
    match replies.as_slice() {
        [ServerMessage::AuthSuccess {
            account_name,
            characters,
        }] => {
            assert_eq!(account_name, "ann");
            let names: Vec<&str> = characters.iter().map(|c| c.name.as_str()).collect();
            assert_eq!(names, ["Ayla", "Bo"]);
            assert_eq!(characters[1].id, 2);
            assert_eq!(characters[0].xp, 900);
        }
        other => panic!("{other:?}"),
    }
    assert_eq!(state.account_name.as_deref(), Some("ann"));
    assert!(!state.is_official_npc);
}

#[test]
fn an_unlisted_or_unverified_email_is_not_eligible() {
    for (email, verified) in [("boss@example.com", false), ("other@example.com", true)] {
        let mut state = greeted(ELSEWHERE);
        google_logged_in(
            &mut state,
            &ctx(),
            claims(email, verified),
            Ok("ann".to_string()),
        );
        assert!(!state.admin_eligible, "{email} {verified}");
    }
}

#[test]
fn failing_stores_speak_for_themselves() {
    let mut state = greeted(LOCALHOST);
    let down = || "Store down".to_string();
    let action = google_logged_in(
        &mut state,
        &ctx(),
        claims("boss@example.com", true),
        Err(down()),
    );
    assert_eq!(refusal(&action), "auth: Store down");
    assert!(!state.admin_eligible);
    assert_eq!(refusal(&npc_logged_in(Err(down()))), "auth: Store down");
    assert_eq!(
        refusal(&dev_logged_in(&mut state, Err(down()))),
        "auth: Store down"
    );
    let replies = finish_auth(&mut state, "ann".to_string(), true, Err(down()));
    assert_eq!(refusal(&Action::Reply(replies)), "auth: Store down");
    assert!(state.account_name.is_none());
    assert!(!state.is_official_npc);
    assert_eq!(
        refusal(&character_stored(&mut state, Err(down()))),
        "character: Store down"
    );
    assert_eq!(
        refusal(&character_deleted(9, Err(down()))),
        "character: Store down"
    );
}

#[test]
fn npc_login_needs_the_exact_token() {
    let login = |token: &str| ClientMessage::AuthenticateNpc {
        account_name: "npc_smith".to_string(),
        npc_token: token.to_string(),
    };
    let mut state = greeted(ELSEWHERE);
    for token in ["", "0123456789abcdeF", "0123456789abcde", "0123456789abcdef "] {
        let action = handle_client_message(&mut state, login(token), &ctx(), NOW);
        assert_eq!(refusal(&action), "auth: Invalid NPC token");
    }
    let action = handle_client_message(&mut state, login("0123456789abcdef"), &ctx(), NOW);
    assert!(matches!(action, Action::LoginNpc { account_name } if account_name == "npc_smith"));
    let action = npc_logged_in(Ok("npc_smith".to_string()));
    assert!(matches!(
        action,
        Action::ListCharacters { is_official_npc: true, .. }
    ));
    finish_auth(&mut state, "npc_smith".to_string(), true, Ok(vec![]));
    assert!(state.is_official_npc);
    assert!(!state.admin_eligible);
}

#[test]
fn dev_login_is_local_and_opt_in() {
    let login = || ClientMessage::AuthenticateDev {
        account_name: "dev".to_string(),
    };
    let mut off = ctx();
    off.dev_auth = false;
    let mut state = greeted(LOCALHOST);
    let action = handle_client_message(&mut state, login(), &off, NOW);
    assert_eq!(
        refusal(&action),
        "auth: Dev login is not enabled on this server"
    );
    let mut remote = greeted(ELSEWHERE);
    let action = handle_client_message(&mut remote, login(), &ctx(), NOW);
    assert_eq!(
        refusal(&action),
        "auth: Dev login is only allowed from localhost"
    );
    let action = handle_client_message(&mut state, login(), &ctx(), NOW);
    assert!(matches!(action, Action::LoginDev { account_name } if account_name == "dev"));
    state.admin_eligible = true;
    let action = dev_logged_in(&mut state, Ok("dev".to_string()));
    assert!(matches!(
        action,
        Action::ListCharacters { account_name, is_official_npc: false } if account_name == "dev"
    ));
    assert!(!state.admin_eligible);
}

#[test]
fn a_second_login_is_refused() {
    let mut state = logged_in();
    let logins = [
        ClientMessage::Authenticate {
            google_id_token: "tok".to_string(),
        },
        ClientMessage::AuthenticateNpc {
            account_name: "npc".to_string(),
            npc_token: "0123456789abcdef".to_string(),
        },
        ClientMessage::AuthenticateDev {
            account_name: "dev".to_string(),
        },
    ];
    for login in logins {
        let action = handle_client_message(&mut state, login, &ctx(), NOW);
        assert_eq!(refusal(&action), "auth: Already authenticated");
    }
    assert_eq!(state.account_name.as_deref(), Some("ann"));
}

#[test]
fn admin_messages_of_others_are_dropped() {
    let cheat = || ClientMessage::DebugSetTime { hour: 1, minute: 2 };
    let mut state = logged_in();
    let action = handle_client_message(&mut state, cheat(), &ctx(), NOW);
    assert!(matches!(action, Action::Done));
    state.player_id = Some(PlayerId(4));
    let action = handle_client_message(&mut state, cheat(), &ctx(), NOW);
    assert_eq!(refusal(&action), "system: Admin only");
    state.is_admin = true;
    let action = handle_client_message(&mut state, cheat(), &ctx(), NOW);
    assert!(matches!(action, Action::Game(_)));
}

#[test]
fn character_requests_need_an_account_and_no_player() {
    let requests = || {
        [
            (
                ClientMessage::CreateCharacter {
                    character_name: "Ayla".to_string(),
                    character_class: CharacterClass::Ranger,
                    gender: Gender::Female,
                },
                "CreateCharacter",
            ),
            (
                ClientMessage::DeleteCharacter { character_id: 3 },
                "DeleteCharacter",
            ),
            (
                ClientMessage::RollCharacterStats {
                    character_class: CharacterClass::Ranger,
                    gender: Gender::Female,
                },
                "RollCharacterStats",
            ),
        ]
    };
    for (request, _) in requests() {
        let action = handle_client_message(&mut greeted(LOCALHOST), request, &ctx(), NOW);
        assert_eq!(refusal(&action), "character: Authenticate first");
    }
    for (request, name) in requests() {
        let mut state = logged_in();
        state.player_id = Some(PlayerId(4));
        let action = handle_client_message(&mut state, request, &ctx(), NOW);
        assert_eq!(
            refusal(&action),
            format!("character: Cannot {name} while in game")
        );
    }
}

#[test]
fn a_roll_makes_one_character() {
    let mut state = logged_in();
    let create = |class: CharacterClass| ClientMessage::CreateCharacter {
        character_name: "Ayla".to_string(),
        character_class: class,
        gender: Gender::Female,
    };
    let action = handle_client_message(&mut state, create(CharacterClass::Ranger), &ctx(), NOW);
    assert_eq!(refusal(&action), "character: Roll attributes first");

    let roll = ClientMessage::RollCharacterStats {
        character_class: CharacterClass::Ranger,
        gender: Gender::Female,
    };
    let action = handle_client_message(&mut state, roll, &ctx(), NOW);
    assert!(matches!(
        action,
        Action::RollAttributes {
            character_class: CharacterClass::Ranger,
            gender: Gender::Female
        }
    ));
    let (query, purpose) = match attributes_rolled(CharacterClass::Ranger, ROLL) {
        Action::ResolveHitPoints { query, purpose } => (query, purpose),
        other => panic!("{other:?}"),
    };
    assert_eq!(
        query,
        HitPointQuery {
            class: CharacterClass::Ranger,
            con: 13
        }
    );
    let action = hit_points_resolved(&mut state, purpose, Some(11));
    assert!(matches!(
        &action,
        Action::Reply(replies) if matches!(
            replies.as_slice(),
            [ServerMessage::CharacterStatsRolled { attributes: ROLL, max_hp: 11 }]
        )
    ));
    assert_eq!(state.pending_character_attributes, Some(ROLL));

    let action = handle_client_message(&mut state, create(CharacterClass::Guard), &ctx(), NOW);
    assert_eq!(
        refusal(&action),
        "character: The guard class is not available"
    );
    let action = handle_client_message(&mut state, create(CharacterClass::Monk), &ctx(), NOW);
    let purpose = match action {
        Action::ResolveHitPoints { query, purpose } => {
            assert_eq!(query.class, CharacterClass::Monk);
            assert_eq!(query.con, 13);
            purpose
        }
        other => panic!("{other:?}"),
    };
    let action = hit_points_resolved(&mut state, purpose, None);
    match action {
        Action::StoreCharacter { character, max_hp } => {
            assert_eq!(max_hp, 13);
            assert_eq!(character.account_name, "ann");
            assert_eq!(character.character_name, "Ayla");
            assert_eq!(character.attributes, ROLL);
            assert_eq!(character.character_class, CharacterClass::Monk);
        }
        other => panic!("{other:?}"),
    }
    assert_eq!(state.pending_character_attributes, Some(ROLL));
    let action = character_stored(&mut state, Ok(record(8, "Ayla")));
    assert!(matches!(
        &action,
        Action::Reply(replies) if matches!(
            replies.as_slice(),
            [ServerMessage::CharacterCreated { character }]
                if character.id == 8 && character.name == "Ayla" && character.max_hp == 21
        )
    ));
    assert_eq!(state.pending_character_attributes, None);
    let action = handle_client_message(&mut state, create(CharacterClass::Monk), &ctx(), NOW);
    assert_eq!(refusal(&action), "character: Roll attributes first");
}

#[test]
fn a_failed_creation_keeps_the_roll() {
    let mut state = logged_in();
    hit_points_resolved(&mut state, HitPointPurpose::Roll(ROLL), Some(9));
    let action = character_stored(&mut state, Err("Name taken".to_string()));
    assert_eq!(refusal(&action), "character: Name taken");
    assert_eq!(state.pending_character_attributes, Some(ROLL));
}

#[test]
fn operator_npcs_may_roll_operator_classes() {
    let roll = || ClientMessage::RollCharacterStats {
        character_class: CharacterClass::Merchant,
        gender: Gender::Male,
    };
    let mut state = logged_in();
    let action = handle_client_message(&mut state, roll(), &ctx(), NOW);
    assert_eq!(
        refusal(&action),
        "character: The merchant class is not available"
    );
    state.is_official_npc = true;
    let action = handle_client_message(&mut state, roll(), &ctx(), NOW);
    assert!(matches!(action, Action::RollAttributes { .. }));
}

#[test]
fn deletion_names_the_character() {
    let mut state = logged_in();
    let request = ClientMessage::DeleteCharacter { character_id: 42 };
    let action = handle_client_message(&mut state, request, &ctx(), NOW);
    assert!(matches!(
        action,
        Action::DeleteCharacter { account_name, character_id: 42 } if account_name == "ann"
    ));
    assert!(matches!(
        character_deleted(42, Ok(())),
        Action::Reply(replies) if matches!(
            replies.as_slice(),
            [ServerMessage::CharacterDeleted { character_id: 42 }]
        )
    ));
}

#[test]
fn entering_twice_is_ignored() {
    let enter = || ClientMessage::EnterGame { character_id: 6 };
    let action = handle_client_message(&mut greeted(LOCALHOST), enter(), &ctx(), NOW);
    assert_eq!(refusal(&action), "character: Authenticate first");
    let mut state = logged_in();
    let action = handle_client_message(&mut state, enter(), &ctx(), NOW);
    assert!(matches!(
        action,
        Action::LoadCharacter { account_name, character_id: 6 } if account_name == "ann"
    ));
    state.player_id = Some(PlayerId(4));
    let action = handle_client_message(&mut state, enter(), &ctx(), NOW);
    assert!(matches!(action, Action::Done));
}

#[test]
fn a_fresh_connection_knows_nothing() {
    let state = ConnectionState::new(ELSEWHERE);
    assert!(state.client_kind.is_none());
    assert!(state.account_name.is_none());
    assert!(state.player_id.is_none());
    assert_eq!(state.last_heartbeat, state.connected_at);
    assert!(state.clock.now() >= state.connected_at);
    assert_eq!(ClientKind::default(), ClientKind::Other);
}

#[test]
fn the_reported_kind_decides_nothing() {
    for kind in [ClientKind::Web, ClientKind::Cli, ClientKind::Other] {
        let mut state = logged_in();
        state.client_kind = Some(kind);
        let cheat = ClientMessage::DebugSetTime { hour: 1, minute: 2 };
        let action = handle_client_message(&mut state, cheat, &ctx(), NOW);
        assert!(matches!(action, Action::Done));
        let enter = ClientMessage::EnterGame { character_id: 6 };
        let action = handle_client_message(&mut state, enter, &ctx(), NOW);
        assert!(matches!(action, Action::LoadCharacter { character_id: 6, .. }));
        assert_eq!(state.client_kind, Some(kind));
    }
}

#[test]
fn a_heartbeat_does_not_buy_time_to_log_in() {
    let mut state = greeted(ELSEWHERE);
    state.connected_at = 0;
    let beat = 60 * 1_000_000_000;
    handle_client_message(&mut state, ClientMessage::Heartbeat, &ctx(), beat);
    assert_eq!(state.last_heartbeat, beat);
    assert!(!on_tick(&state, 61 * 1_000_000_000 - 1).dropped);
    assert!(on_tick(&state, 61 * 1_000_000_000).dropped);
}

#[test]
fn an_npc_login_after_a_failed_google_login_is_not_eligible() {
    let mut state = greeted(ELSEWHERE);
    let action = google_logged_in(
        &mut state,
        &ctx(),
        claims("boss@example.com", true),
        Ok("ann".to_string()),
    );
    assert!(matches!(action, Action::ListCharacters { .. }));
    assert!(state.admin_eligible);
    finish_auth(
        &mut state,
        "ann".to_string(),
        false,
        Err("Store down".to_string()),
    );
    assert!(state.account_name.is_none());

    let login = ClientMessage::AuthenticateNpc {
        account_name: "npc_smith".to_string(),
        npc_token: "0123456789abcdef".to_string(),
    };
    let action = handle_client_message(&mut state, login, &ctx(), NOW);
    assert!(matches!(action, Action::LoginNpc { .. }));
    let action = npc_logged_in(Ok("npc_smith".to_string()));
    assert!(matches!(
        action,
        Action::ListCharacters { is_official_npc: true, .. }
    ));
    finish_auth(&mut state, "npc_smith".to_string(), true, Ok(vec![]));
    assert_eq!(state.account_name.as_deref(), Some("npc_smith"));
    assert!(state.is_official_npc);
    assert!(!state.admin_eligible);

    let mut smith = record(1, "Smith");
    smith.admin_role = 9;
    character_loaded(&mut state, 1, Ok(smith));
    assert!(!state.is_admin);
}

#[test]
fn a_connection_counts_from_the_moment_it_is_given() {
    let state = ConnectionState::connected(ELSEWHERE, Clock::start(), NOW);
    assert_eq!(state.connected_at, NOW);
    assert_eq!(state.last_heartbeat, NOW);
    assert!(!on_tick(&state, NOW + 61 * 1_000_000_000 - 1).dropped);
    assert!(on_tick(&state, NOW + 61 * 1_000_000_000).dropped);
}
