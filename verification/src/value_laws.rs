//! What the values of the game mean: numbers, zones, classes, kinds of clients,
//! admins, and connections that have just been made.

use crate::address::{is_loopback, ClientIp};
use crate::auth::{token_matches, AuthContext, GoogleClaims};
use crate::character::{
    character_record_to_shared, default_character_max_hp, Character, CharacterClass,
    CharacterRecord, UnknownClass,
};
use crate::clock::Clock;
use crate::connection::ConnectionState;
use crate::entity::ClientKind;
use crate::messages::{ClientMessage, ServerMessage};
use crate::session_laws::shows;
use crate::text::same_ignoring_ascii_case;
use crate::text_laws::{lemma_texts_alike, texts_alike};
use crate::world::{NoSpawnZone, Position, Scalar};
use vstd::prelude::*;

verus! {

/// Two numbers compare by their bits: upwards where neither is negative, downwards
/// where both are, and across zero by sign, both zeros being the same. A pattern
/// that is no number compares with nothing.
pub proof fn law_numbers_compare_by_their_bits(a: Scalar, b: Scalar, res: bool)
    requires
        call_ensures(Scalar::le, (a, b), res),
    ensures
        ({
            let (x, y) = (a.bits as int % 0x8000_0000, b.bits as int % 0x8000_0000);
            let (below, under) = (a.bits >= 0x8000_0000, b.bits >= 0x8000_0000);
            if x > 0x7f80_0000 || y > 0x7f80_0000 {
                !res
            } else if !below && !under {
                res <==> x <= y
            } else if below && under {
                res <==> y <= x
            } else if below {
                res
            } else {
                res <==> x == 0 && y == 0
            }
        }),
{
    let (x, y) = (a.magnitude(), b.magnitude());
    crate::world::lemma_magnitude_order(x, y);
    crate::world::lemma_magnitude_order(y, x);
    crate::world::lemma_magnitude_order(0, x);
    crate::world::lemma_magnitude_order(0, y);
}

/// A number is finite unless its exponent is all ones, and a position is finite if
/// its three coordinates are.
pub proof fn law_finite_numbers(
    number: Scalar,
    res: bool,
    position: &Position,
    x: bool,
    y: bool,
    z: bool,
    all: bool,
)
    requires
        call_ensures(Scalar::is_finite, (number,), res),
        call_ensures(Scalar::is_finite, (position.x,), x),
        call_ensures(Scalar::is_finite, (position.y,), y),
        call_ensures(Scalar::is_finite, (position.z,), z),
        call_ensures(Position::is_finite, (position,), all),
    ensures
        res <==> (number.bits as int / 0x80_0000) % 0x100 != 0xff,
        all <==> x && y && z,
{
}

/// A zone contains a point that lies between its edges both ways, the edges
/// included, and no other point.
pub proof fn law_zones_reach_from_edge_to_edge(
    zone: &NoSpawnZone,
    x: Scalar,
    z: Scalar,
    from_x: bool,
    to_x: bool,
    from_z: bool,
    to_z: bool,
    res: bool,
)
    requires
        call_ensures(Scalar::le, (zone.min_x, x), from_x),
        call_ensures(Scalar::le, (x, zone.max_x), to_x),
        call_ensures(Scalar::le, (zone.min_z, z), from_z),
        call_ensures(Scalar::le, (z, zone.max_z), to_z),
        call_ensures(NoSpawnZone::contains, (zone, x, z), res),
    ensures
        res <==> from_x && to_x && from_z && to_z,
{
}

/// Players may pick every class but merchant and guard.
pub proof fn law_two_classes_are_reserved(class: &CharacterClass, res: bool)
    requires
        call_ensures(CharacterClass::is_player_selectable, (class,), res),
    ensures
        !res <==> *class is Merchant || *class is Guard,
{
}

/// The name of a class reads back as that class, and what reads as a class is its
/// name.
pub proof fn law_class_names_read_back(
    class: &CharacterClass,
    name: &'static str,
    text: &str,
    read: Result<CharacterClass, UnknownClass>,
)
    requires
        call_ensures(CharacterClass::as_str, (class,), name),
        call_ensures(CharacterClass::from_name, (text,), read),
    ensures
        text@ == name@ <==> read == Ok::<CharacterClass, UnknownClass>(*class),
{
}

/// New characters have the hit points of the rule, or 13 where it gives none.
pub proof fn law_new_characters_have_hit_points(resolved: Option<u32>, res: u32)
    requires
        call_ensures(default_character_max_hp, (resolved,), res),
    ensures
        resolved matches Some(points) ==> res == points,
        resolved is None ==> res == 13,
{
}

/// Clients see a character as it is recorded.
pub proof fn law_characters_are_shown_as_recorded(record: CharacterRecord, res: Character)
    requires
        call_ensures(character_record_to_shared, (record,), res),
    ensures
        shows(res, record),
{
}

/// A client that reports the name of a kind is counted as that kind, and every other
/// one as another.
pub proof fn law_reported_kinds_are_counted(
    kind: &ClientKind,
    name: &'static str,
    reported: &str,
    res: ClientKind,
)
    requires
        call_ensures(ClientKind::as_str, (kind,), name),
        call_ensures(ClientKind::from_reported, (reported,), res),
    ensures
        reported@ == name@ ==> res == *kind,
        !(*kind is Other) && res == *kind ==> reported@ == name@,
{
    reveal_strlit("web");
    reveal_strlit("cli");
    reveal_strlit("other");
    assert("web"@[0] != "cli"@[0]);
    assert("web"@[0] != "other"@[0]);
    assert("cli"@[0] != "other"@[0]);
}

/// The loopback addresses are those that start with 127, and ::1.
pub proof fn law_loopback_addresses(ip: ClientIp, res: bool)
    requires
        call_ensures(is_loopback, (ip,), res),
    ensures
        ip matches ClientIp::V4(octets) ==> (res <==> octets@[0] == 127),
        ip matches ClientIp::V6(segments) ==> (res <==> segments@[0] == 0 && segments@[1] == 0
            && segments@[2] == 0 && segments@[3] == 0 && segments@[4] == 0 && segments@[5] == 0
            && segments@[6] == 0 && segments@[7] == 1),
{
}

/// Claims are an admin's exactly if their address is verified and is, but for the
/// case of ASCII letters, one of the configured addresses.
pub proof fn law_admins_have_a_configured_address(
    ctx: &AuthContext,
    claims: &GoogleClaims,
    res: bool,
)
    requires
        call_ensures(AuthContext::is_admin, (ctx, claims), res),
    ensures
        res <==> claims.email_verified == Some(true) && claims.email is Some && (exists|i: int|
            0 <= i < ctx.admin_emails@.len() && texts_alike(
                #[trigger] ctx.admin_emails@[i]@,
                (claims.email->0)@,
            )),
{
    if claims.email is Some {
        let email = (claims.email->0)@;
        assert forall|i: int| 0 <= i < ctx.admin_emails@.len() implies (texts_alike(
            #[trigger] ctx.admin_emails@[i]@,
            email,
        ) <==> same_ignoring_ascii_case(ctx.admin_emails@[i]@, email)) by {
            lemma_texts_alike(ctx.admin_emails@[i]@, email);
        }
    }
}

/// A token matches itself and nothing else: the same length, and the same character
/// at every place.
pub proof fn law_tokens_match_character_by_character(provided: &str, expected: &str, res: bool)
    requires
        call_ensures(token_matches, (provided, expected), res),
    ensures
        res <==> provided@.len() == expected@.len() && forall|i: int|
            0 <= i < provided@.len() ==> #[trigger] provided@[i] == expected@[i],
{
    if provided@.len() == expected@.len() && forall|i: int|
        0 <= i < provided@.len() ==> #[trigger] provided@[i] == expected@[i] {
        assert(provided@ =~= expected@);
    }
}

/// The account of a Google identity is looked up by the identity's `sub`, so two
/// tokens of one identity lead to one account.
pub proof fn law_one_identity_has_one_account(a: &GoogleClaims, b: &GoogleClaims, x: &String, y: &String)
    requires
        call_ensures(GoogleClaims::account_key, (a,), x),
        call_ensures(GoogleClaims::account_key, (b,), y),
    ensures
        *x == a.sub,
        a.sub == b.sub <==> *x == *y,
{
}

/// A connection that was just made is nobody's yet, has no rights, and counts its
/// time from the moment it was made.
pub proof fn law_new_connections_are_nobodys(
    client_ip: ClientIp,
    clock: Clock,
    now: u128,
    res: ConnectionState,
)
    requires
        call_ensures(ConnectionState::connected, (client_ip, clock, now), res),
    ensures
        res.client_ip == client_ip,
        res.clock == clock,
        res.connected_at == now,
        res.last_heartbeat == now,
        res.client_kind is None,
        !res.must_close,
        res.account_name is None,
        res.player_id is None,
        res.character_name is None,
        res.pending_character_attributes is None,
        !res.is_official_npc,
        !res.admin_eligible,
        !res.is_admin,
{
}

/// What a message needs of its connection is granted or refused by what the
/// connection is: a name for who is logged in, no player, a class that is not
/// reserved or an operator.
pub proof fn law_requirements_go_by_the_connection(
    state: &ConnectionState,
    class: &CharacterClass,
    action: &str,
    name: Result<String, Vec<ServerMessage>>,
    free: Result<(), Vec<ServerMessage>>,
    playable: Result<(), Vec<ServerMessage>>,
)
    requires
        call_ensures(ConnectionState::require_auth, (state,), name),
        call_ensures(ConnectionState::require_not_in_game, (state, action), free),
        call_ensures(ConnectionState::require_selectable_class, (state, class), playable),
    ensures
        state.account_name is None <==> name is Err,
        name matches Ok(account) ==> state.account_name == Some(account),
        state.player_id is Some <==> free is Err,
        free matches Err(replies) ==> {
            &&& replies@.len() == 1
            &&& replies@[0] matches ServerMessage::CharacterError { message }
            &&& message@ == "Cannot "@ + action@ + " while in game"@
        },
        playable is Err <==> !state.is_official_npc && (*class is Merchant || *class is Guard),
{
}

/// A plain move goes where it says and replaces the waypoint queue.
pub proof fn law_plain_moves_replace(
    position: Position,
    rotation: Scalar,
    floor_level: i8,
    res: ClientMessage,
)
    requires
        call_ensures(ClientMessage::player_move, (position, rotation, floor_level), res),
    ensures
        res matches ClientMessage::PlayerMove { position: to, rotation: facing, floor_level: floor, append }
            && to == position && facing == rotation && floor == floor_level && !append,
{
}

} // verus!
