//! Millisecond arithmetic on clock readings, done by `fugit`.

use fugit::MillisDurationU32;
use vstd::prelude::*;

verus! {

/// Milliseconds from the reading `since` to the later reading `now`.
///
/// Trusted: subtracts two `fugit::MillisDurationU32` values with their `Sub`
/// impl and reads the difference back with `to_millis`. `from_ticks` stores the
/// tick count as it is, the subtraction is a checked subtraction of the two
/// tick counts that panics when `since` is the larger one, and in the
/// millisecond base `to_millis` is the tick count itself.
#[verifier::external_body]
pub(crate) fn millis_between(now: u32, since: u32) -> (elapsed: u32)
    requires
        since <= now,
    ensures
        elapsed == now - since,
{
    (MillisDurationU32::from_ticks(now) - MillisDurationU32::from_ticks(since)).to_millis()
}

} // verus!
