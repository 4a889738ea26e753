//! What the operator's settings come to, how the NPC token is kept, and what the
//! server does in which order.

use crate::auth::{AuthContext, GoogleAuthVerifier};
use crate::startup::{
    auth_context, google_verifier, initial_game_time, law_listed_addresses_are_solid,
    listed, listen_address, on_server_event, parse_admin_emails, shutdown_steps, terrain_port,
    AuthSettings, NpcTokenTooShort, SavedTime, ServerAction, ServerEvent, ShutdownStep, StartTime,
};
use crate::text::{decimal, is_white_space, pieces, texts, trim};
use crate::text_laws::number_in;
use crate::ticks::{next_tick, time_sync_tick, TimeSyncStep};
use crate::token::{
    generated_token, hex32, hex_digit, is_long_enough, load_or_create_npc_token, nibble,
    token_in_file, NpcToken,
};
use crate::world::GameDateTime;
use vstd::arithmetic::div_mod::*;
use vstd::arithmetic::power2::*;
use vstd::prelude::*;
use vstd::utf8::*;

verus! {

proof fn lemma_pieces_of_one(s: Seq<char>, sep: char)
    requires
        forall|i: int| 0 <= i < s.len() ==> #[trigger] s[i] != sep,
    ensures
        pieces(s, sep) == seq![s],
    decreases s.len(),
{
    if s.len() > 0 {
        assert forall|i: int| 0 <= i < s.drop_last().len() implies #[trigger] s.drop_last()[i]
            != sep by {
            assert(s.drop_last()[i] == s[i]);
        }
        lemma_pieces_of_one(s.drop_last(), sep);
        let before = pieces(s.drop_last(), sep);
        assert(s[s.len() - 1] != sep);
        assert(before.last().push(s.last()) =~= s);
        assert(pieces(s, sep) =~= seq![s]);
    } else {
        assert(s =~= Seq::<char>::empty());
    }
}

proof fn lemma_pieces_of_two(a: Seq<char>, b: Seq<char>, sep: char)
    ensures
        pieces(a.push(sep) + b, sep) == pieces(a, sep) + pieces(b, sep),
        pieces(b, sep).len() > 0,
    decreases b.len(),
{
    let all = a.push(sep) + b;
    if b.len() == 0 {
        assert(all =~= a.push(sep));
        assert(all.drop_last() =~= a);
        assert(pieces(all, sep) =~= pieces(a, sep) + pieces(b, sep));
    } else {
        lemma_pieces_of_two(a, b.drop_last(), sep);
        assert(all.drop_last() =~= a.push(sep) + b.drop_last());
        assert(all.last() == b.last());
        let before = pieces(b.drop_last(), sep);
        let all_before = pieces(a, sep) + before;
        assert(all_before.last() == before.last());
        assert(pieces(all, sep) =~= pieces(a, sep) + pieces(b, sep));
    }
}

proof fn lemma_listed_of_two(x: Seq<Seq<char>>, y: Seq<Seq<char>>)
    ensures
        listed(x + y) == listed(x) + listed(y),
    decreases y.len(),
{
    if y.len() == 0 {
        assert(x + y =~= x);
        assert(listed(x + y) =~= listed(x) + listed(y));
    } else {
        lemma_listed_of_two(x, y.drop_last());
        assert((x + y).drop_last() =~= x + y.drop_last());
        assert((x + y).last() == y.last());
        assert(listed(x + y) =~= listed(x) + listed(y));
    }
}

/// A setting without a comma is one address, without the white space around it, or
/// none where nothing else is in it.
pub proof fn law_single_address_is_trimmed(
    list: &str,
    address: &str,
    res: Vec<String>,
)
    requires
        forall|i: int| 0 <= i < list@.len() ==> #[trigger] list@[i] != ',',
        call_ensures(trim, (list,), address),
        call_ensures(parse_admin_emails, (list,), res),
    ensures
        address@.len() == 0 ==> res@.len() == 0,
        address@.len() > 0 ==> res@.len() == 1 && res@[0]@ == address@,
{
    lemma_pieces_of_one(list@, ',');
    reveal_with_fuel(listed, 2);
    let parts = seq![list@];
    assert(parts.drop_last() =~= Seq::<Seq<char>>::empty());
    assert(texts(res@).len() == res@.len());
    if address@.len() > 0 {
        assert(texts(res@)[0] == res@[0]@);
    }
}

/// Two lists with a comma between them are the addresses of the first and then
/// those of the second.
pub proof fn law_lists_of_addresses_join(
    first: &str,
    second: &str,
    both: &str,
    of_first: Vec<String>,
    of_second: Vec<String>,
    of_both: Vec<String>,
)
    requires
        both@ == first@.push(',') + second@,
        call_ensures(parse_admin_emails, (first,), of_first),
        call_ensures(parse_admin_emails, (second,), of_second),
        call_ensures(parse_admin_emails, (both,), of_both),
    ensures
        texts(of_both@) == texts(of_first@) + texts(of_second@),
{
    lemma_pieces_of_two(first@, second@, ',');
    lemma_listed_of_two(pieces(first@, ','), pieces(second@, ','));
}

/// No address of the list is empty or has white space around it.
pub proof fn law_parsed_addresses_are_solid(list: &str, res: Vec<String>, i: int)
    requires
        call_ensures(parse_admin_emails, (list,), res),
        0 <= i < res@.len(),
    ensures
        res@[i]@.len() > 0,
        !is_white_space(res@[i]@.first()),
        !is_white_space(res@[i]@.last()),
{
    assert(texts(res@)[i] == res@[i]@);
    law_listed_addresses_are_solid(pieces(list@, ','), i);
}

/// Google sign-ins are accepted for the client ids that are configured, the
/// browser's before the headless client's, and disabled without any.
pub proof fn law_configured_clients_are_accepted(
    browser: Option<String>,
    headless: Option<String>,
    res: Option<GoogleAuthVerifier>,
)
    requires
        call_ensures(google_verifier, (browser, headless), res),
    ensures
        match (browser, headless) {
            (None, None) => res is None,
            (Some(b), None) => res matches Some(v) && v.client_ids@.len() == 1 && v.client_ids@[0] == b,
            (None, Some(h)) => res matches Some(v) && v.client_ids@.len() == 1 && v.client_ids@[0] == h,
            (Some(b), Some(h)) => {
                &&& res matches Some(v)
                &&& v.client_ids@.len() == 2
                &&& v.client_ids@[0] == b
                &&& v.client_ids@[1] == h
            },
        },
{
}

/// The server starts with what the operator set, each setting read the way it is
/// read on its own, unless the NPC token is too short.
pub proof fn law_settings_take_effect(
    settings: AuthSettings,
    token: &str,
    enough: bool,
    list: &str,
    emails: Vec<String>,
    google: Option<GoogleAuthVerifier>,
    res: Result<AuthContext, NpcTokenTooShort>,
)
    requires
        token@ == settings.npc_token@,
        list@ == settings.admin_emails@,
        call_ensures(is_long_enough, (token,), enough),
        call_ensures(parse_admin_emails, (list,), emails),
        call_ensures(
            google_verifier,
            (settings.google_client_id, settings.google_cli_client_id),
            google,
        ),
        call_ensures(auth_context, (settings,), res),
    ensures
        enough <==> res is Ok,
        res matches Ok(ctx) ==> {
            &&& ctx.npc_token == settings.npc_token
            &&& ctx.dev_auth == settings.dev_auth
            &&& texts(ctx.admin_emails@) == texts(emails@)
            &&& ctx.google is Some <==> google is Some
            &&& ctx.google matches Some(verifier) ==> verifier.client_ids@ == google->0.client_ids@
        },
{
}

/// A token is long enough from 16 bytes on, white space around it not counted.
pub proof fn law_tokens_take_sixteen_bytes(token: &str, inner: &str, res: bool)
    requires
        call_ensures(trim, (token,), inner),
        call_ensures(is_long_enough, (token,), res),
    ensures
        res <==> encode_utf8(inner@).len() >= 16,
{
}

/// A token file holds what is in it without white space around it; a file that
/// cannot be read, or that holds nothing else, holds no token.
pub proof fn law_token_files_hold_trimmed_tokens(
    contents: &Option<String>,
    text: &str,
    inner: &str,
    res: Option<String>,
)
    requires
        *contents matches Some(held) ==> held@ == text@,
        call_ensures(trim, (text,), inner),
        call_ensures(token_in_file, (contents,), res),
    ensures
        *contents is None ==> res is None,
        *contents is Some && inner@.len() == 0 ==> res is None,
        *contents is Some && inner@.len() > 0 ==> (res matches Some(token) && token@ == inner@),
{
}

/// The server runs with the token its file holds, and does not make one up then;
/// without one it makes one up of 32 lower-case hexadecimal digits, with the marks
/// of a random UUID.
pub proof fn law_held_token_is_used(
    contents: &Option<String>,
    held: Option<String>,
    res: NpcToken,
)
    requires
        call_ensures(token_in_file, (contents,), held),
        call_ensures(load_or_create_npc_token, (*contents,), res),
    ensures
        held matches Some(token) ==> res.token@ == token@ && !res.created,
        held is None ==> {
            &&& res.created
            &&& res.token@.len() == 32
            &&& forall|i: int| 0 <= i < 32 ==> is_hex(#[trigger] res.token@[i])
            &&& res.token@[12] == '4'
            &&& res.token@[16] == '8' || res.token@[16] == '9' || res.token@[16] == 'a'
                || res.token@[16] == 'b'
        },
{
    if held is None {
        let n = choose|n: u128| #[trigger]
            crate::token::random_uuid_bits(n) && res.token@ == hex32(n);
        assert forall|i: int| 0 <= i < 32 implies is_hex(#[trigger] res.token@[i]) by {
            assert(nibble(n, (31 - i) as nat) < 16);
        }
        assert(res.token@[12] == hex_digit(nibble(n, 19)));
        assert(res.token@[16] == hex_digit(nibble(n, 15)));
    }
}

/// A lower-case hexadecimal digit.
pub open spec fn is_hex(c: char) -> bool {
    0x30 <= c as u32 <= 0x39 || 0x61 <= c as u32 <= 0x66
}

/// The number a text of lower-case hexadecimal digits stands for.
pub open spec fn number_in_hex(text: Seq<char>) -> int
    decreases text.len(),
{
    if text.len() == 0 {
        0
    } else {
        let c = text.last() as u32;
        number_in_hex(text.drop_last()) * 16 + (if c <= 0x39 {
            c - 0x30
        } else {
            c - 0x57
        })
    }
}

/// A generated token is the number it was made of, in 32 hexadecimal digits: it
/// reads back as that number, so different numbers give different tokens.
pub proof fn law_generated_tokens_read_back(n: u128, res: String)
    requires
        call_ensures(generated_token, (n,), res),
    ensures
        res@.len() == 32,
        forall|i: int| 0 <= i < 32 ==> is_hex(#[trigger] res@[i]),
        number_in_hex(res@) == n,
{
    assert forall|i: int| 0 <= i < 32 implies is_hex(#[trigger] res@[i]) by {
        assert(nibble(n, (31 - i) as nat) < 16);
    }
    lemma_hex_prefix(n, 32);
    assert(hex32(n).take(32) =~= hex32(n));
    lemma2_to64();
    assert(pow2(0) == 1);
    lemma_div_basics(n as int);
}

proof fn lemma_hex_prefix(n: u128, k: nat)
    requires
        k <= 32,
    ensures
        number_in_hex(hex32(n).take(k as int)) == n as nat / pow2((4 * (32 - k)) as nat),
    decreases k,
{
    let text = hex32(n).take(k as int);
    if k == 0 {
        assert(text =~= Seq::<char>::empty());
        lemma2_to64();
        lemma2_to64_rest();
        lemma_pow2_adds(64, 64);
        assert(pow2(128) == 0x1_0000_0000_0000_0000 * 0x1_0000_0000_0000_0000);
        assert(n < pow2(128));
        lemma_basic_div(n as int, pow2(128) as int);
    } else {
        lemma_hex_prefix(n, (k - 1) as nat);
        assert(text.drop_last() =~= hex32(n).take(k - 1));
        let place = (32 - k) as nat;
        let low = pow2(4 * place);
        let high = pow2((4 * (32 - (k - 1))) as nat);
        lemma_pow2_adds(4 * place, 4);
        lemma2_to64();
        assert(pow2(4) == 16);
        assert(high == low * 16);
        lemma_pow2_pos(4 * place);
        let m = n as int / low as int;
        lemma_div_denominator(n as int, low as int, 16);
        assert(m / 16 == n as int / (low * 16) as int);
        lemma_fundamental_div_mod(m, 16);
        let d = nibble(n, place);
        assert(d == m % 16);
        assert(text.last() == hex_digit(d));
        assert(d < 10 ==> hex_digit(d) as u32 == 0x30 + d);
        assert(10 <= d < 16 ==> hex_digit(d) as u32 == 0x57 + d);
    }
}

/// The game goes on at the saved time; without one it starts at the default, which
/// is saved only where the store holds none.
pub proof fn law_saved_time_is_kept(saved: SavedTime, default: GameDateTime, res: StartTime)
    requires
        call_ensures(initial_game_time, (saved, default), res),
    ensures
        saved matches SavedTime::Saved(kept) ==> res.datetime == kept && !res.save,
        !(saved is Saved) ==> res.datetime == default,
        res.save <==> saved is NotSaved,
{
}

/// The REST API listens where it is told to, else right above the game port.
pub proof fn law_rest_api_port(port: u16, configured: Option<u16>, res: u16)
    requires
        configured is Some || port < u16::MAX,
        call_ensures(terrain_port, (port, configured), res),
    ensures
        configured matches Some(own) ==> res == own,
        configured is None ==> res == port + 1,
{
}

/// The address to listen on is the bind address, a colon, and the port, which can
/// be read back from it.
pub proof fn law_listen_address_holds_the_port(bind: &str, port: u16, res: String)
    requires
        call_ensures(listen_address, (bind, port), res),
    ensures
        res@.len() > bind@.len() + 1,
        res@.take(bind@.len() as int) == bind@,
        res@[bind@.len() as int] == ':',
        number_in(res@.skip(bind@.len() as int + 1)) == port,
{
    reveal_strlit(":");
    crate::text_laws::lemma_decimal(port as nat);
    assert(res@.take(bind@.len() as int) =~= bind@);
    assert(res@.skip(bind@.len() as int + 1) =~= decimal(port as nat));
}

/// A signal and the end of the REST API drain the server, with the notice for its
/// players. Of accepted connections those within the limits are served, and nothing
/// else stops or starts anything.
pub proof fn law_accept_loop_serves_until_it_drains(event: ServerEvent, res: ServerAction)
    requires
        call_ensures(on_server_event, (event,), res),
    ensures
        res is Drain <==> event is Signal || event is ApiStopped,
        res is Serve <==> event == (ServerEvent::Accepted { allowed: true }),
        res matches ServerAction::Drain { notice } ==> notice@
            == "The server is shutting down. Please reconnect shortly."@,
{
}

/// The server goes down in this order, every step once.
pub proof fn law_shutdown_goes_in_order(res: Vec<ShutdownStep>)
    requires
        call_ensures(shutdown_steps, (), res),
    ensures
        res@.len() == 6,
        res@[0] is StopAccepting,
        res@[1] is DrainBackground,
        res@[2] is HoldNotice,
        res@[3] is DrainConnections,
        res@[4] is SaveSnapshot,
        res@[5] is DrainApi,
{
}

/// Every time-sync tick counts down shop holds, pays salaries and then tells the
/// time, in this order; an even one regenerates health before that, and one whose
/// number four divides flushes the saves before the time is told.
pub proof fn law_tick_work(tick_count: u64, res: Vec<TimeSyncStep>)
    requires
        call_ensures(time_sync_tick, (tick_count,), res),
    ensures
        ({
            let even: int = if tick_count % 2 == 0 {
                1
            } else {
                0
            };
            let fourth: int = if tick_count % 4 == 0 {
                1
            } else {
                0
            };
            &&& res@.len() == 3 + even + fourth
            &&& even == 1 ==> res@[0] is Regenerate
            &&& res@[even] is ShopHolds
            &&& res@[even + 1] is NpcSalaries
            &&& fourth == 1 ==> res@[even + 2] is FlushSaves
            &&& res@.last() is BroadcastAndSaveTime
        }),
{
}

/// Ticks are numbered one after the other; after the largest number comes zero.
pub proof fn law_ticks_are_numbered_in_turn(tick_count: u64, res: u64)
    requires
        call_ensures(next_tick, (tick_count,), res),
    ensures
        tick_count < 0xffff_ffff_ffff_ffff ==> res == tick_count + 1,
        tick_count == 0xffff_ffff_ffff_ffff ==> res == 0,
{
}

} // verus!
