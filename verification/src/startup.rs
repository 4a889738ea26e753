//! Turning the operator's settings into what the server runs with, and the
//! decisions of the accept loop.

use crate::auth::{AuthContext, GoogleAuthVerifier};
use crate::text::{
    decimal, decimal_text, is_white_space, lemma_trimmed_is_solid, pieces, split, texts, trim, trimmed,
};
use crate::token::{is_long_enough, long_enough};
use crate::world::GameDateTime;
use vstd::prelude::*;
use vstd::string::*;

verus! {

/// What connected players read when the server goes down.
pub const SHUTDOWN_NOTICE: &'static str = "The server is shutting down. Please reconnect shortly.";

/// How long they have to read it.
pub const SHUTDOWN_NOTICE_SECS: u64 = 2;

/// The trimmed parts that are not empty.
pub open spec fn listed(parts: Seq<Seq<char>>) -> Seq<Seq<char>>
    decreases parts.len(),
{
    if parts.len() == 0 {
        seq![]
    } else {
        let before = listed(parts.drop_last());
        let part = trimmed(parts.last());
        if part.len() > 0 {
            before.push(part)
        } else {
            before
        }
    }
}

/// The addresses of a comma-separated list, without white space around them;
/// empty ones are left out.
pub fn parse_admin_emails(list: &str) -> (res: Vec<String>)
    ensures
        texts(res@) == listed(pieces(list@, ',')),
{
    let parts = split(list, ',');
    let ghost all = texts(parts@);
    let mut res: Vec<String> = Vec::new();
    assert(texts(res@) =~= listed(all.take(0)));
    for i in 0..parts.len()
        invariant
            all == texts(parts@),
            texts(res@) == listed(all.take(i as int)),
    {
        let part = trim(parts[i].as_str());
        let ghost before = texts(res@);
        assert(all.take(i + 1).drop_last() =~= all.take(i as int));
        assert(all.take(i + 1).last() == parts@[i as int]@);
        if !part.is_empty() {
            res.push(part.to_owned());
            assert(texts(res@) =~= before.push(part@));
        }
    }
    assert(all.take(all.len() as int) =~= all);
    res
}

/// The configured Google client ids: the browser's first, then the headless
/// client's.
pub open spec fn accepted_ids(browser: Option<String>, headless: Option<String>) -> Seq<String> {
    (match browser {
        Some(id) => seq![id],
        None => seq![],
    }) + (match headless {
        Some(id) => seq![id],
        None => seq![],
    })
}

/// Whose Google sign-in tokens are accepted; `None` when no client id is
/// configured, which disables Google sign-in.
pub fn google_verifier(browser: Option<String>, headless: Option<String>) -> (res: Option<
    GoogleAuthVerifier,
>)
    ensures
        res is None <==> browser is None && headless is None,
        res matches Some(verifier) ==> verifier.client_ids@ == accepted_ids(browser, headless),
{
    let ghost expected = accepted_ids(browser, headless);
    let mut client_ids: Vec<String> = Vec::new();
    match browser {
        Some(id) => {
            client_ids.push(id);
        },
        None => {},
    }
    match headless {
        Some(id) => {
            client_ids.push(id);
        },
        None => {},
    }
    assert(client_ids@ =~= expected);
    if client_ids.len() == 0 {
        None
    } else {
        Some(GoogleAuthVerifier { client_ids })
    }
}

/// The operator's settings for logging in.
#[derive(Debug)]
pub struct AuthSettings {
    pub google_client_id: Option<String>,
    pub google_cli_client_id: Option<String>,
    pub npc_token: String,
    /// Comma-separated.
    pub admin_emails: String,
    pub dev_auth: bool,
}

/// The NPC token is too short to start the server with.
#[derive(Debug, Clone, Copy, PartialEq, Eq, Structural)]
pub struct NpcTokenTooShort;

/// The credential checkers the server runs with. A short NPC token keeps the
/// server from starting.
pub fn auth_context(settings: AuthSettings) -> (res: Result<AuthContext, NpcTokenTooShort>)
    ensures
        res is Ok <==> long_enough(settings.npc_token@),
        res matches Ok(ctx) ==> {
            &&& ctx.npc_token == settings.npc_token
            &&& ctx.dev_auth == settings.dev_auth
            &&& texts(ctx.admin_emails@) == listed(pieces(settings.admin_emails@, ','))
            &&& ctx.google is None <==> settings.google_client_id is None
                && settings.google_cli_client_id is None
            &&& ctx.google matches Some(verifier) ==> verifier.client_ids@ == accepted_ids(
                settings.google_client_id,
                settings.google_cli_client_id,
            )
        },
{
    if !is_long_enough(settings.npc_token.as_str()) {
        return Err(NpcTokenTooShort);
    }
    let admin_emails = parse_admin_emails(settings.admin_emails.as_str());
    Ok(
        AuthContext {
            google: google_verifier(settings.google_client_id, settings.google_cli_client_id),
            npc_token: settings.npc_token,
            admin_emails,
            dev_auth: settings.dev_auth,
        },
    )
}

/// What the store said about the saved game time.
#[derive(Debug, Clone, Copy, PartialEq, Eq, Structural)]
pub enum SavedTime {
    Saved(GameDateTime),
    /// The store was asked and holds none.
    NotSaved,
    Failed,
}

/// The game time to start with.
#[derive(Debug, Clone, Copy, PartialEq, Eq, Structural)]
pub struct StartTime {
    pub datetime: GameDateTime,
    /// It has to be saved, being the first.
    pub save: bool,
}

/// The game time to start with: the saved one, else the default. The default is
/// saved only where the store holds none, so that a failing store is not
/// overwritten.
pub fn initial_game_time(saved: SavedTime, default: GameDateTime) -> (res: StartTime)
    ensures
        res == (match saved {
            SavedTime::Saved(datetime) => StartTime { datetime, save: false },
            SavedTime::NotSaved => StartTime { datetime: default, save: true },
            SavedTime::Failed => StartTime { datetime: default, save: false },
        }),
{
    match saved {
        SavedTime::Saved(datetime) => StartTime { datetime, save: false },
        SavedTime::NotSaved => StartTime { datetime: default, save: true },
        SavedTime::Failed => StartTime { datetime: default, save: false },
    }
}

/// The port of the REST API: the configured one, or the one after the game port.
pub fn terrain_port(port: u16, configured: Option<u16>) -> (res: u16)
    requires
        configured is Some || port < u16::MAX,
    ensures
        res == (match configured {
            Some(configured) => configured,
            None => (port + 1) as u16,
        }),
{
    match configured {
        Some(configured) => configured,
        None => port + 1,
    }
}

/// The address to listen on.
pub fn listen_address(bind: &str, port: u16) -> (res: String)
    ensures
        res@ == bind@ + ":"@ + decimal(port as nat),
{
    let mut res = bind.to_owned();
    res.append(":");
    res.append(decimal_text(port as u64).as_str());
    res
}

/// What the accept loop wakes up for.
#[derive(Debug, Clone, Copy, PartialEq, Eq, Structural)]
pub enum ServerEvent {
    /// The operating system asks the server to stop.
    Signal,
    /// The REST API ended. A dead API behind a live listener is a partial
    /// outage that no supervisor can see, so the server drains to be restarted.
    ApiStopped,
    /// A connection was accepted; `allowed` is what the connection limiter said
    /// about its peer.
    Accepted { allowed: bool },
    AcceptFailed,
    ConnectionFinished,
}

/// What the accept loop does.
#[derive(Debug, Clone, Copy)]
pub enum ServerAction {
    /// Show the notice to everyone and stop accepting.
    Drain { notice: &'static str },
    /// Serve the accepted connection.
    Serve,
    /// Wait for the next event.
    Wait,
}

/// Decides what the accept loop does with an event.
pub fn on_server_event(event: ServerEvent) -> (res: ServerAction)
    ensures
        match event {
            ServerEvent::Signal | ServerEvent::ApiStopped => {
                res matches ServerAction::Drain { notice } && notice@ == SHUTDOWN_NOTICE@
            },
            ServerEvent::Accepted { allowed } => if allowed {
                res is Serve
            } else {
                res is Wait
            },
            ServerEvent::AcceptFailed | ServerEvent::ConnectionFinished => res is Wait,
        },
{
    match event {
        ServerEvent::Signal => ServerAction::Drain { notice: SHUTDOWN_NOTICE },
        ServerEvent::ApiStopped => ServerAction::Drain { notice: SHUTDOWN_NOTICE },
        ServerEvent::Accepted { allowed } => if allowed {
            ServerAction::Serve
        } else {
            ServerAction::Wait
        },
        ServerEvent::AcceptFailed => ServerAction::Wait,
        ServerEvent::ConnectionFinished => ServerAction::Wait,
    }
}

/// One step of taking the server down.
#[derive(Debug, Clone, Copy, PartialEq, Eq, Structural)]
pub enum ShutdownStep {
    /// Close the listener.
    StopAccepting,
    /// Stop the periodic tasks and the REST API, and wait for the former.
    DrainBackground,
    /// Wait until the notice was up for `SHUTDOWN_NOTICE_SECS`.
    HoldNotice,
    /// End every connection, and wait for them.
    DrainConnections,
    /// Persist every connected player.
    SaveSnapshot,
    /// Wait for the REST API.
    DrainApi,
}

/// How the server is taken down once it drains: background writers fall silent,
/// the notice is held for its full time, and all players are stopped before the
/// final snapshot is taken.
pub open spec fn shutdown_plan() -> Seq<ShutdownStep> {
    seq![
        ShutdownStep::StopAccepting,
        ShutdownStep::DrainBackground,
        ShutdownStep::HoldNotice,
        ShutdownStep::DrainConnections,
        ShutdownStep::SaveSnapshot,
        ShutdownStep::DrainApi,
    ]
}

/// The steps that take the server down once it drains, in order.
pub fn shutdown_steps() -> (res: Vec<ShutdownStep>)
    ensures
        res@ == shutdown_plan(),
{
    let res = vec![
        ShutdownStep::StopAccepting,
        ShutdownStep::DrainBackground,
        ShutdownStep::HoldNotice,
        ShutdownStep::DrainConnections,
        ShutdownStep::SaveSnapshot,
        ShutdownStep::DrainApi,
    ];
    assert(res@ =~= shutdown_plan());
    res
}

/// Nothing writes to a player any more when the final snapshot is taken: whatever
/// could is stopped at an earlier step.
pub proof fn law_snapshot_comes_after_all_writers(i: int, j: int)
    requires
        0 <= i < shutdown_plan().len(),
        0 <= j < shutdown_plan().len(),
        shutdown_plan()[i] == ShutdownStep::SaveSnapshot,
        shutdown_plan()[j] == ShutdownStep::StopAccepting || shutdown_plan()[j]
            == ShutdownStep::DrainBackground || shutdown_plan()[j]
            == ShutdownStep::DrainConnections,
    ensures
        j < i,
{
}

/// Players see the notice for its full time: connections end only after it was
/// held.
pub proof fn law_notice_is_held_before_connections_end(i: int, j: int)
    requires
        0 <= i < shutdown_plan().len(),
        0 <= j < shutdown_plan().len(),
        shutdown_plan()[i] == ShutdownStep::HoldNotice,
        shutdown_plan()[j] == ShutdownStep::DrainConnections,
    ensures
        i < j,
{
}

/// Every address on the allowlist is worth something: none is empty, and none has
/// white space around it.
pub proof fn law_listed_addresses_are_solid(parts: Seq<Seq<char>>, i: int)
    requires
        0 <= i < listed(parts).len(),
    ensures
        listed(parts)[i].len() > 0,
        !is_white_space(listed(parts)[i].first()),
        !is_white_space(listed(parts)[i].last()),
    decreases parts.len(),
{
    let before = listed(parts.drop_last());
    if i < before.len() {
        law_listed_addresses_are_solid(parts.drop_last(), i);
        assert(listed(parts)[i] == before[i]);
    } else {
        lemma_trimmed_is_solid(parts.last());
    }
}

} // verus!
