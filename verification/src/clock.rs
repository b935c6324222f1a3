//! Timestamps and the pace of the sampling task.

use vstd::prelude::*;

verus! {

/// The milliseconds in a span of `secs` whole seconds and `subsec_nanos`
/// further nanoseconds; a part of a millisecond is dropped.
pub open spec fn millis_of(secs: u64, subsec_nanos: u32) -> int {
    secs * 1000 + subsec_nanos / 1_000_000
}

/// The timestamp of a moment, in milliseconds since the Unix epoch, from the
/// time that has passed since the epoch: `secs` whole seconds and
/// `subsec_nanos` further nanoseconds.
pub fn create_timestamp(secs: u64, subsec_nanos: u32) -> (millis: u128)
    ensures
        millis == millis_of(secs, subsec_nanos),
{
    let whole: u128 = secs as u128 * 1000;
    let part: u128 = (subsec_nanos / 1_000_000) as u128;
    whole + part
}

/// The milliseconds between two sampling boundaries at the given number of
/// samples per second; a part of a millisecond is dropped.
pub fn sampling_interval(samples_per_second: u64) -> (millis: u64)
    requires
        samples_per_second > 0,
    ensures
        millis == 1000int / samples_per_second as int,
{
    1000 / samples_per_second
}

} // verus!
