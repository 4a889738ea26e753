//! The shared secret of headless NPC clients: kept in a file, made up on first
//! run, and refused at startup when it is too short.

use crate::text::{is_white_space, lemma_trimmed_is_solid, trim, trim_back, trim_front, trimmed};
use uuid::Uuid;
use vstd::arithmetic::power2::pow2;
use vstd::prelude::*;
use vstd::string::*;
use vstd::utf8::*;

verus! {

/// Minimum length in bytes for an operator-supplied NPC token; a generated one
/// has 32 hexadecimal digits.
pub const MIN_NPC_TOKEN_LEN: usize = 16;

/// The four bits of `n` at hexadecimal place `place`, counted from the right.
pub open spec fn nibble(n: u128, place: nat) -> nat {
    (n as nat / pow2(4 * place)) % 16
}

/// The lower-case hexadecimal digit of value `d`.
pub open spec fn hex_digit(d: nat) -> char {
    if d < 10 {
        (0x30 + d) as char
    } else {
        (0x57 + d) as char
    }
}

/// The 32 lower-case hexadecimal digits of `n`.
pub open spec fn hex32(n: u128) -> Seq<char> {
    Seq::new(32, |i: int| hex_digit(nibble(n, (31 - i) as nat)))
}

/// The version and variant bits of a random (version 4) UUID.
pub open spec fn random_uuid_bits(n: u128) -> bool {
    nibble(n, 19) == 4 && 8 <= nibble(n, 15) <= 11
}

/// A random UUID, as `uuid::Uuid::new_v4` draws it from the operating system.
/// It marks the number as a version 4 UUID; the other bits are random, so
/// nothing is known of them. It panics where the system has no randomness.
#[verifier::external_body]
fn random_uuid() -> (res: u128)
    ensures
        random_uuid_bits(res),
{
    Uuid::new_v4().as_u128()
}

/// The form of a UUID without hyphens that `uuid::Uuid::simple` prints: the
/// digits of the number in lower-case hexadecimal.
#[verifier::external_body]
fn simple_form(n: u128) -> (res: String)
    ensures
        res@ == hex32(n),
{
    Uuid::from_u128(n).simple().to_string()
}

/// The NPC token the server runs with.
#[derive(Debug)]
pub struct NpcToken {
    pub token: String,
    /// The token was made up just now and has to be written to the token file.
    pub created: bool,
}

/// The token a token file holds: what is left of its contents without white
/// space around it, unless that is nothing.
pub open spec fn stored_token(contents: Option<Seq<char>>) -> Option<Seq<char>> {
    match contents {
        Some(text) => if trimmed(text).len() > 0 {
            Some(trimmed(text))
        } else {
            None
        },
        None => None,
    }
}

/// The characters of an optional string.
pub open spec fn text_of(text: Option<String>) -> Option<Seq<char>> {
    match text {
        Some(text) => Some(text@),
        None => None,
    }
}

/// The token a token file with these contents holds. `None` stands for a file
/// that cannot be read.
pub fn token_in_file(contents: &Option<String>) -> (res: Option<String>)
    ensures
        text_of(res) == stored_token(text_of(*contents)),
{
    match contents {
        Some(text) => {
            let token = trim(text.as_str());
            if token.is_empty() {
                None
            } else {
                Some(token.to_owned())
            }
        },
        None => None,
    }
}

/// The token made of the random UUID `n`.
pub fn generated_token(n: u128) -> (res: String)
    ensures
        res@ == hex32(n),
{
    simple_form(n)
}

/// The NPC token to run with, given the contents of the token file: the token
/// it holds, or a random one on first run so that local bots work with no
/// configuration.
pub fn load_or_create_npc_token(contents: Option<String>) -> (res: NpcToken)
    ensures
        match stored_token(text_of(contents)) {
            Some(token) => res.token@ == token && !res.created,
            None => res.created && exists|n: u128| #[trigger]
                random_uuid_bits(n) && res.token@ == hex32(n),
        },
{
    match token_in_file(&contents) {
        Some(token) => NpcToken { token, created: false },
        None => {
            let n: u128 = random_uuid();
            NpcToken { token: generated_token(n), created: true }
        },
    }
}

/// Long enough to start the server with, white space around it not counted.
pub open spec fn long_enough(token: Seq<char>) -> bool {
    encode_utf8(trimmed(token)).len() >= MIN_NPC_TOKEN_LEN
}

/// Whether a token is long enough to start the server with.
pub fn is_long_enough(token: &str) -> (res: bool)
    ensures
        res == long_enough(token@),
{
    trim(token).as_bytes().len() >= MIN_NPC_TOKEN_LEN
}

proof fn lemma_trimming_keeps_solid_text(s: Seq<char>)
    requires
        s.len() > 0,
        !is_white_space(s.first()),
        !is_white_space(s.last()),
    ensures
        trimmed(s) == s,
{
    assert(trim_front(s) == s);
    assert(trim_back(s) == s);
}

/// The token is stable over restarts: written back to its file, the token a file
/// holds is read as the same token again.
pub proof fn law_stored_token_is_stable(contents: Option<Seq<char>>, token: Seq<char>)
    requires
        stored_token(contents) == Some(token),
    ensures
        stored_token(Some(token)) == Some(token),
{
    let text = contents->0;
    lemma_trimmed_is_solid(text);
    lemma_trimming_keeps_solid_text(token);
}

/// A generated token is accepted at startup, and reading it back from the token
/// file it was written to gives the same token.
pub proof fn law_generated_token_serves(n: u128)
    ensures
        long_enough(hex32(n)),
        stored_token(Some(hex32(n))) == Some(hex32(n)),
{
    let s = hex32(n);
    assert forall|i: int| 0 <= i < 32 implies 0x30 <= #[trigger] s[i] as u32 <= 0x66
        && !is_white_space(s[i]) by {
        assert(nibble(n, (31 - i) as nat) < 16);
    }
    assert(s.first() == s[0] && s.last() == s[31]);
    lemma_trimming_keeps_solid_text(s);
    assert(is_ascii_chars(s));
    is_ascii_chars_encode_utf8(s);
}

} // verus!
