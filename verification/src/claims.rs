use vstd::prelude::*;
use crate::clock::{CLOCK_LIMIT_SECS, unix_now};

verus! {

/// Seconds a session token stays valid after it was issued (12 hours).
pub const TOKEN_LIFETIME_SECS: i64 = 43200;

/// The claims carried by a session token.
pub struct TokenClaims {
    pub sub: String,
    pub iss: String,
    pub exp: usize,
    pub iat: usize,
    pub nbf: usize,
    pub aud: String,
}

/// The issuer written into every session token.
pub open spec fn issuer() -> Seq<char> {
    "chainpost"@
}

/// The audience written into every session token.
pub open spec fn audience() -> Seq<char> {
    "https://chainpost.social/"@
}

/// The claims of a token minted at Unix time `now` for the user `uid`:
/// issued and valid from `now`, expiring twelve hours later.
pub open spec fn minted_claims_spec(uid: Seq<char>, now: i64) -> (Seq<char>, Seq<char>, usize, usize, usize, Seq<char>) {
    (uid, issuer(), (now + TOKEN_LIFETIME_SECS) as usize, now as usize, now as usize, audience())
}

impl TokenClaims {
    /// The claims as a tuple of plain values:
    /// (sub, iss, exp, iat, nbf, aud).
    pub open spec fn fields(&self) -> (Seq<char>, Seq<char>, usize, usize, usize, Seq<char>) {
        (self.sub@, self.iss@, self.exp, self.iat, self.nbf, self.aud@)
    }
}

/// Builds the claims of a session token for `uid`, issued at Unix time `now`.
pub fn token_claims(uid: &str, now: i64) -> (claims: TokenClaims)
    requires
        now <= i64::MAX - TOKEN_LIFETIME_SECS,
    ensures
        claims.fields() == minted_claims_spec(uid@, now),
{
    let expiry: i64 = now + TOKEN_LIFETIME_SECS;
    TokenClaims {
        sub: uid.to_string(),
        iss: "chainpost".to_string(),
        exp: expiry as usize,
        iat: now as usize,
        nbf: now as usize,
        aud: "https://chainpost.social/".to_string(),
    }
}

/// Builds the claims of a session token for `uid`, issued now: the same
/// claims as `token_claims` at the current Unix time.
pub fn mint_claims(uid: &str) -> (claims: TokenClaims)
    ensures
        exists|issued: i64|
            0 <= issued < CLOCK_LIMIT_SECS && #[trigger] minted_claims_spec(uid@, issued)
                == claims.fields(),
{
    let now = unix_now();
    token_claims(uid, now)
}

} // verus!
