//! Who may log in: the credential configuration, the shared NPC token and the
//! admin allowlist.

use crate::text::{eq_ignore_ascii_case, same_ignoring_ascii_case};
use vstd::prelude::*;
use vstd::string::*;
use vstd::utf8::*;

verus! {

/// The identity a verified Google sign-in token speaks for.
#[derive(Debug)]
pub struct GoogleClaims {
    pub sub: String,
    pub email: Option<String>,
    pub email_verified: Option<bool>,
}

impl GoogleClaims {
    /// What the account of this identity is looked up by: the token's `sub`.
    pub fn account_key(&self) -> (res: &String)
        ensures
            *res == self.sub,
    {
        &self.sub
    }
}

/// Whose Google sign-in tokens are accepted.
#[derive(Debug)]
pub struct GoogleAuthVerifier {
    pub client_ids: Vec<String>,
}

/// Credential checkers shared by every connection and the REST API.
#[derive(Debug)]
pub struct AuthContext {
    /// None when the server was started without a Google client id; browser
    /// logins are rejected until it is configured.
    pub google: Option<GoogleAuthVerifier>,
    pub npc_token: String,
    /// Google account emails allowed to call REST write endpoints.
    pub admin_emails: Vec<String>,
    /// Allow dev logins, from loopback only.
    pub dev_auth: bool,
}

/// `email` is one of `allowed`, in any ASCII case.
pub open spec fn email_listed(allowed: Seq<String>, email: Seq<char>) -> bool {
    exists|i: int|
        0 <= i < allowed.len() && same_ignoring_ascii_case(#[trigger] allowed[i]@, email)
}

impl AuthContext {
    /// The claims carry a verified email that is on the allowlist.
    pub open spec fn admits(&self, claims: GoogleClaims) -> bool {
        &&& claims.email_verified == Some(true)
        &&& claims.email matches Some(email)
        &&& email_listed(self.admin_emails@, email@)
    }

    /// Verified-email allowlist check shared by REST writes and in-game
    /// debug/cheat commands.
    pub fn is_admin(&self, claims: &GoogleClaims) -> (res: bool)
        ensures
            res == self.admits(*claims),
    {
        match claims.email_verified {
            Some(true) => {},
            _ => {
                return false;
            },
        }
        match &claims.email {
            None => false,
            Some(email) => {
                for i in 0..self.admin_emails.len()
                    invariant
                        claims.email_verified == Some(true),
                        claims.email == Some(*email),
                        forall|j: int|
                            0 <= j < i ==> !same_ignoring_ascii_case(
                                #[trigger] self.admin_emails@[j]@,
                                email@,
                            ),
                {
                    if eq_ignore_ascii_case(self.admin_emails[i].as_str(), email.as_str()) {
                        assert(same_ignoring_ascii_case(self.admin_emails@[i as int]@, email@));
                        return true;
                    }
                }
                false
            },
        }
    }
}

/// Constant-time equality so the NPC token can't be probed byte by byte.
pub fn token_matches(provided: &str, expected: &str) -> (res: bool)
    ensures
        res == (provided@ == expected@),
{
    let a = provided.as_bytes();
    let b = expected.as_bytes();
    if a.len() != b.len() {
        return false;
    }
    let mut difference: u8 = 0;
    for i in 0..a.len()
        invariant
            a@.len() == b@.len(),
            difference == 0 <==> forall|j: int| 0 <= j < i ==> a@[j] == b@[j],
    {
        let (x, y): (u8, u8) = (a[i], b[i]);
        assert((difference | (x ^ y)) == 0 <==> difference == 0 && x == y) by (bit_vector);
        difference = difference | (x ^ y);
    }
    proof {
        encode_utf8_decode_utf8(provided@);
        encode_utf8_decode_utf8(expected@);
        if difference == 0 {
            assert(a@ =~= b@);
        }
    }
    difference == 0
}

/// The allowlist ignores ASCII case on both sides: writing an allowed address
/// with other capitals neither gains nor loses admin rights.
pub proof fn law_allowlist_ignores_case(ctx: AuthContext, a: GoogleClaims, b: GoogleClaims)
    requires
        a.email_verified == b.email_verified,
        a.email is Some,
        b.email is Some,
        same_ignoring_ascii_case(a.email->0@, b.email->0@),
    ensures
        ctx.admits(a) == ctx.admits(b),
{
    let (x, y) = (a.email->0@, b.email->0@);
    if email_listed(ctx.admin_emails@, x) {
        let i = choose|i: int|
            0 <= i < ctx.admin_emails@.len() && same_ignoring_ascii_case(
                #[trigger] ctx.admin_emails@[i]@,
                x,
            );
        assert(same_ignoring_ascii_case(ctx.admin_emails@[i]@, y));
    }
    if email_listed(ctx.admin_emails@, y) {
        let i = choose|i: int|
            0 <= i < ctx.admin_emails@.len() && same_ignoring_ascii_case(
                #[trigger] ctx.admin_emails@[i]@,
                y,
            );
        assert(same_ignoring_ascii_case(ctx.admin_emails@[i]@, x));
    }
}

} // verus!
