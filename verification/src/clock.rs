use vstd::prelude::*;

verus! {

/// A bound above every Unix time, in seconds, that `chrono` can represent:
/// its calendar ends in the year 262142.
pub const CLOCK_LIMIT_SECS: i64 = 10_000_000_000_000;

/// `chrono::Utc::now().timestamp()`: the current Unix time in seconds.
/// Its value depends on the system clock, so the contract says only what
/// holds of every outcome: `Utc::now` panics on a clock set before 1970,
/// so the time is not negative, and it is a time `chrono` can represent.
#[verifier::external_body]
pub(crate) fn unix_now() -> (t: i64)
    ensures
        0 <= t < CLOCK_LIMIT_SECS,
{
    chrono::Utc::now().timestamp()
}

} // verus!
