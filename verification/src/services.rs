use vstd::prelude::*;
use crate::claims::TokenClaims;
use crate::clock::{CLOCK_LIMIT_SECS, unix_now};

verus! {

/// What the token of a session cookie turned out to be when the server
/// tried to decode it with its signing secret.
pub enum TokenCheck {
    /// The signing secret is not configured.
    SecretMissing,
    /// The token did not decode: bad signature, malformed, or refused by
    /// the decoder's own checks.
    Rejected,
    /// The token decoded to these claims.
    Decoded(TokenClaims),
}

/// Why no user id could be taken from a token.
#[derive(Debug, PartialEq, Eq, Structural)]
pub enum AuthError {
    SecretMissing,
    InvalidToken,
}

/// Whether decoded claims are still within their lifetime at Unix time
/// `now`: the expiry is not before `now`.
pub open spec fn unexpired(claims: TokenClaims, now: i64) -> bool {
    claims.exp >= now as usize
}

/// The verdict on a token: an error when the secret is missing, otherwise
/// whether it decoded and has not expired.
pub open spec fn valid_jwt_spec(check: TokenCheck, now: i64) -> Result<bool, AuthError> {
    match check {
        TokenCheck::SecretMissing => Err(AuthError::SecretMissing),
        TokenCheck::Rejected => Ok(false),
        TokenCheck::Decoded(claims) => Ok(unexpired(claims, now)),
    }
}

/// Whether a request carrying this session cookie (`None`: no cookie) is
/// authenticated at Unix time `now`.
pub open spec fn check_auth_spec(cookie: Option<TokenCheck>, now: i64) -> bool {
    match cookie {
        Some(check) => valid_jwt_spec(check, now) == Ok::<bool, AuthError>(true),
        None => false,
    }
}

/// The user id a token yields: its subject, or why there is none.
pub open spec fn uid_of(check: TokenCheck) -> Result<Seq<char>, AuthError> {
    match check {
        TokenCheck::SecretMissing => Err(AuthError::SecretMissing),
        TokenCheck::Rejected => Err(AuthError::InvalidToken),
        TokenCheck::Decoded(claims) => Ok(claims.sub@),
    }
}

/// Judges a session token at Unix time `now`.
pub fn valid_jwt_at(check: &TokenCheck, now: i64) -> (verdict: Result<bool, AuthError>)
    ensures
        verdict == valid_jwt_spec(*check, now),
{
    match check {
        TokenCheck::SecretMissing => Err(AuthError::SecretMissing),
        TokenCheck::Rejected => Ok(false),
        TokenCheck::Decoded(claims) => Ok(claims.exp >= now as usize),
    }
}

/// Whether a request is authenticated at Unix time `now`: it carries a
/// session cookie whose token decodes and has not expired.
pub fn check_auth_at(cookie: &Option<TokenCheck>, now: i64) -> (authorized: bool)
    ensures
        authorized == check_auth_spec(*cookie, now),
        authorized ==> (*cookie matches Some(TokenCheck::Decoded(claims)) && unexpired(claims, now)),
{
    match cookie {
        Some(check) => match valid_jwt_at(check, now) {
            Ok(valid) => valid,
            Err(_) => false,
        },
        None => false,
    }
}

/// Judges a session token now: the verdict of `valid_jwt_at` at the
/// current Unix time.
pub fn valid_jwt(check: &TokenCheck) -> (verdict: Result<bool, AuthError>)
    ensures
        exists|now: i64|
            0 <= now < CLOCK_LIMIT_SECS && verdict == #[trigger] valid_jwt_spec(*check, now),
{
    let now = unix_now();
    valid_jwt_at(check, now)
}

/// Whether a request is authenticated now: the answer of `check_auth_at`
/// at the current Unix time. Only a cookie whose token decoded lets a
/// request in.
pub fn check_auth(cookie: &Option<TokenCheck>) -> (authorized: bool)
    ensures
        exists|now: i64|
            0 <= now < CLOCK_LIMIT_SECS && authorized == #[trigger] check_auth_spec(*cookie, now),
        authorized ==> (*cookie matches Some(TokenCheck::Decoded(_))),
{
    let now = unix_now();
    check_auth_at(cookie, now)
}

/// The user id a token was issued to.
pub fn get_uid_from_jwt(check: &TokenCheck) -> (uid: Result<String, AuthError>)
    ensures
        match uid {
            Ok(u) => uid_of(*check) == Ok::<Seq<char>, AuthError>(u@),
            Err(e) => uid_of(*check) == Err::<Seq<char>, AuthError>(e),
        },
{
    match check {
        TokenCheck::SecretMissing => Err(AuthError::SecretMissing),
        TokenCheck::Rejected => Err(AuthError::InvalidToken),
        TokenCheck::Decoded(claims) => Ok(claims.sub.clone()),
    }
}

} // verus!
