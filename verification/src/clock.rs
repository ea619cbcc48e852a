//! Wall-clock readings and the time between two of them.

use vstd::prelude::*;

verus! {

/// Reads the clock through `time::precise_time_ns`: the current value of a
/// high-resolution counter, in nanoseconds since an epoch that the `time`
/// crate leaves unspecified. The reading depends on when it is taken, so
/// nothing is claimed of it: to the verifier two readings are any two
/// numbers, and the later need not be the greater.
#[verifier::external_body]
pub(crate) fn precise_time_ns() -> u64 {
    time::precise_time_ns()
}

/// The nanoseconds from the reading `start` to the reading `end`; zero
/// where the clock has not advanced between the two.
pub open spec fn nanos_between(start: u64, end: u64) -> u64 {
    if end >= start {
        (end - start) as u64
    } else {
        0
    }
}

/// The time that passed between two clock readings, in nanoseconds.
pub fn elapsed_ns(start: u64, end: u64) -> (elapsed: u64)
    ensures
        elapsed == nanos_between(start, end),
{
    if end >= start {
        end - start
    } else {
        0
    }
}

} // verus!
