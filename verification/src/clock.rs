//! Engine time: milliseconds since the engine was built, in a `u64`.
//! Periods and delays are configured in whole seconds.

use vstd::prelude::*;

verus! {

/// The sum of two times, held at the largest value that fits.
pub open spec fn saturating_sum(a: u64, b: u64) -> u64 {
    if a + b > u64::MAX {
        u64::MAX
    } else {
        (a + b) as u64
    }
}

/// A number of seconds in milliseconds, held at the largest value that fits.
pub open spec fn spec_millis(seconds: u64) -> u64 {
    if seconds * 1000 > u64::MAX {
        u64::MAX
    } else {
        (seconds * 1000) as u64
    }
}

/// Adds two times, stopping at the largest value that fits.
pub fn saturating_add_time(a: u64, b: u64) -> (sum: u64)
    ensures
        sum == saturating_sum(a, b),
{
    if a > u64::MAX - b {
        u64::MAX
    } else {
        a + b
    }
}

/// Converts seconds to milliseconds, stopping at the largest value that fits.
pub fn millis(seconds: u64) -> (ms: u64)
    ensures
        ms == spec_millis(seconds),
{
    if seconds > u64::MAX / 1000 {
        u64::MAX
    } else {
        seconds * 1000
    }
}

} // verus!
