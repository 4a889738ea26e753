use onlinerpg::startup::{
    auth_context, google_verifier, initial_game_time, listen_address, on_server_event,
    parse_admin_emails, shutdown_steps, terrain_port, AuthSettings, NpcTokenTooShort, SavedTime,
    ServerAction, ServerEvent, ShutdownStep, StartTime, SHUTDOWN_NOTICE,
};
use onlinerpg::auth::GoogleClaims;
use onlinerpg::world::GameDateTime;

fn settings() -> AuthSettings {
    AuthSettings {
        google_client_id: Some("browser".to_string()),
        google_cli_client_id: None,
        npc_token: " 0123456789abcdef ".to_string(),
        admin_emails: "a@x.org, ,b@x.org".to_string(),
        dev_auth: false,
    }
}

#[test]
fn admin_emails_are_trimmed_and_never_empty() {
    assert!(parse_admin_emails("").is_empty());
    assert!(parse_admin_emails(" , ,,").is_empty());
    assert_eq!(
        parse_admin_emails(" a@x.org ,b@x.org,, c@x.org"),
        ["a@x.org", "b@x.org", "c@x.org"]
    );
}

#[test]
fn google_needs_a_client_id() {
    let id = |s: &str| Some(s.to_string());
    assert!(google_verifier(None, None).is_none());
    let ids = |browser, headless| google_verifier(browser, headless).unwrap().client_ids;
    assert_eq!(ids(id("b"), None), ["b"]);
    assert_eq!(ids(None, id("h")), ["h"]);
    assert_eq!(ids(id("b"), id("h")), ["b", "h"]);
}

#[test]
fn settings_become_credential_checkers() {
    let ctx = auth_context(settings()).unwrap();
    assert_eq!(ctx.npc_token, " 0123456789abcdef ");
    assert_eq!(ctx.admin_emails, ["a@x.org", "b@x.org"]);
    assert!(!ctx.dev_auth);
    assert_eq!(ctx.google.unwrap().client_ids, ["browser"]);
}

#[test]
fn a_blank_address_is_no_admin() {
    let ctx = auth_context(settings()).unwrap();
    assert!(!ctx.is_admin(&GoogleClaims {
        sub: "s".to_string(),
        email: Some(String::new()),
        email_verified: Some(true),
    }));
}

#[test]
fn a_short_npc_token_keeps_the_server_down() {
    let mut short = settings();
    short.npc_token = "0123456789abcde          ".to_string();
    assert_eq!(auth_context(short).err(), Some(NpcTokenTooShort));
}

#[test]
fn game_time_starts_where_it_was() {
    let default = GameDateTime {
        year: 1,
        month: 2,
        day: 3,
        hour: 4,
        minute: 5,
    };
    let saved = GameDateTime { year: 9, ..default };
    assert_eq!(
        initial_game_time(SavedTime::Saved(saved), default),
        StartTime {
            datetime: saved,
            save: false
        }
    );
    assert_eq!(
        initial_game_time(SavedTime::NotSaved, default),
        StartTime {
            datetime: default,
            save: true
        }
    );
    assert_eq!(
        initial_game_time(SavedTime::Failed, default),
        StartTime {
            datetime: default,
            save: false
        }
    );
}

#[test]
fn addresses_and_ports() {
    assert_eq!(terrain_port(10006, None), 10007);
    assert_eq!(terrain_port(10006, Some(80)), 80);
    assert_eq!(terrain_port(65534, None), 65535);
    assert_eq!(terrain_port(65535, Some(80)), 80);
    assert_eq!(listen_address("127.0.0.1", 10006), "127.0.0.1:10006");
    assert_eq!(listen_address("::", 0), ":::0");
}

#[test]
fn the_accept_loop_drains_on_a_signal_or_a_dead_api() {
    for event in [ServerEvent::Signal, ServerEvent::ApiStopped] {
        assert!(
            matches!(on_server_event(event), ServerAction::Drain { notice } if notice == SHUTDOWN_NOTICE)
        );
    }
    assert!(matches!(
        on_server_event(ServerEvent::Accepted { allowed: true }),
        ServerAction::Serve
    ));
    for event in [
        ServerEvent::Accepted { allowed: false },
        ServerEvent::AcceptFailed,
        ServerEvent::ConnectionFinished,
    ] {
        assert!(matches!(on_server_event(event), ServerAction::Wait));
    }
}

#[test]
fn the_snapshot_comes_after_all_writers() {
    let steps = shutdown_steps();
    let at = |step: ShutdownStep| steps.iter().position(|s| *s == step).unwrap();
    assert_eq!(steps.len(), 6);
    assert!(at(ShutdownStep::DrainConnections) < at(ShutdownStep::SaveSnapshot));
    assert!(at(ShutdownStep::DrainBackground) < at(ShutdownStep::SaveSnapshot));
    assert!(at(ShutdownStep::HoldNotice) < at(ShutdownStep::DrainConnections));
    assert_eq!(at(ShutdownStep::StopAccepting), 0);
}
