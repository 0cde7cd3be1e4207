//! The wall clock.

use vstd::prelude::*;

verus! {

/// Microseconds since the Unix epoch, from `std::time::SystemTime::elapsed` on the epoch.
///
/// The value depends on the machine's clock, so nothing is claimed of it. A clock set before the
/// epoch reads as 0.
#[verifier::external_body]
pub(crate) fn unix_micros() -> u64 {
    std::time::UNIX_EPOCH.elapsed().unwrap_or_default().as_micros() as u64
}

/// Milliseconds since the Unix epoch: the whole milliseconds of a reading of the clock.
pub(crate) fn unix_millis() -> (r: u64)
    ensures
        exists|micros: u64| r == #[trigger] whole_millis(micros),
{
    millis_of(unix_micros())
}

/// The whole milliseconds in a number of microseconds.
pub open spec fn whole_millis(micros: u64) -> u64 {
    micros / 1_000
}

/// The whole milliseconds in a number of microseconds.
pub(crate) fn millis_of(micros: u64) -> (r: u64)
    ensures
        r == whole_millis(micros),
{
    micros / 1_000
}

/// A millisecond is a thousand microseconds, and what is left over is dropped.
pub proof fn milliseconds_are_whole(micros: u64)
    ensures
        whole_millis(micros) * 1_000 <= micros < whole_millis(micros) * 1_000 + 1_000,
{
}

} // verus!
