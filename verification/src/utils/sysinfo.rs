//! The two readings of the host: wall-clock seconds and logical CPUs.

use std::time::{Duration, SystemTime, SystemTimeError, UNIX_EPOCH};
use vstd::prelude::*;

verus! {

/// `std::time::SystemTime`, a point on the host's real-time clock. Nothing is
/// known of what a value holds.
#[verifier::external_type_specification]
#[verifier::external_body]
pub struct ExSystemTime(std::time::SystemTime);

/// `std::time::SystemTimeError`, which `SystemTime::duration_since` returns
/// where the other point is the later one. Nothing is known of what a value
/// holds.
#[verifier::external_type_specification]
#[verifier::external_body]
pub struct ExSystemTimeError(std::time::SystemTimeError);

/// `SystemTime::now` reads the host's real-time clock. The reading is whatever
/// the host says at that moment, so nothing is claimed of it.
pub assume_specification[ SystemTime::now ]() -> (now: SystemTime)
;

/// Calls `SystemTime::duration_since` on `now` with `std::time::UNIX_EPOCH`,
/// which measures from the epoch to `now` and fails where `now` lies before
/// the epoch. `now` is opaque here, so nothing is claimed of which of the two
/// comes back.
#[verifier::external_body]
fn since_epoch(now: &SystemTime) -> (elapsed: Result<Duration, SystemTimeError>)
{
    now.duration_since(UNIX_EPOCH)
}

/// The whole seconds that a duration holds, as `Duration::as_secs` gives
/// them: its fraction of a second is left out.
pub uninterp spec fn whole_secs(d: Duration) -> u64;

/// `Duration::as_secs` gives the whole seconds of a duration, leaving out its
/// fraction of a second. The number depends on the duration alone and is
/// named [`whole_secs`]; the duration is opaque here, so nothing more is
/// claimed of it.
pub assume_specification[ Duration::as_secs ](d: &Duration) -> (secs: u64)
    ensures
        secs == whole_secs(*d),
;

/// The reading of the clock that a measurement against the epoch gives: the
/// whole seconds of the measured duration, and `None` where the measurement
/// failed because the clock stood before the epoch.
pub open spec fn elapsed_of(measured: Result<Duration, SystemTimeError>) -> Option<u64> {
    match measured {
        Ok(d) => Some(whole_secs(d)),
        Err(_) => None,
    }
}

/// The timestamp to report for a reading of the clock.
///
/// `elapsed` is the whole seconds from the Unix epoch to the reading, or `None`
/// where the clock could not be measured against the epoch because it stood
/// before it. Such a reading is reported as zero.
pub open spec fn timestamp_of(elapsed: Option<u64>) -> u64 {
    match elapsed {
        Some(secs) => secs,
        None => 0,
    }
}

/// Turns a measurement against the epoch into a reading of the clock: the
/// whole seconds of the measured duration, and `None` where the measurement
/// failed because the clock stood before the epoch.
pub fn elapsed_secs(measured: Result<Duration, SystemTimeError>) -> (elapsed: Option<u64>)
    ensures
        elapsed == elapsed_of(measured),
{
    match measured {
        Ok(duration) => Some(duration.as_secs()),
        Err(_) => None,
    }
}

/// Turns a reading of the clock into the timestamp to report: the seconds
/// since the epoch, and zero for a clock that stood before it.
pub fn timestamp_from(elapsed: Option<u64>) -> (secs: u64)
    ensures
        secs == timestamp_of(elapsed),
{
    match elapsed {
        Some(secs) => secs,
        None => 0,
    }
}

/// The current wall-clock time as whole seconds since the Unix epoch, and
/// zero where the host's clock stands before the epoch.
///
/// The result is the timestamp of a measurement of the clock against the
/// epoch: the whole seconds of the measured duration, and zero where the
/// measurement failed. Which measurement the host gives at the moment of the
/// call cannot be stated; [`elapsed_secs`] and [`timestamp_from`] say what
/// becomes of each.
pub fn unix_timestamp() -> (secs: u64)
    ensures
        exists|measured: Result<Duration, SystemTimeError>|
            secs == timestamp_of(#[trigger] elapsed_of(measured)),
{
    let now = SystemTime::now();
    let measured = since_epoch(&now);
    let ghost seen = measured;
    let secs = timestamp_from(elapsed_secs(measured));
    assert(secs == timestamp_of(elapsed_of(seen)));
    secs
}

/// Whether a clock that gave `first` and later `second` is not seen to have
/// moved backward in between. A reading from before the epoch carries no
/// seconds, so nothing that follows it counts as a step back.
pub open spec fn not_backward(first: Option<u64>, second: Option<u64>) -> bool {
    match (first, second) {
        (None, _) => true,
        (Some(_), None) => false,
        (Some(a), Some(b)) => a <= b,
    }
}

/// Timestamps do not decrease while the clock does not move backward.
pub proof fn lemma_timestamp_monotone(first: Option<u64>, second: Option<u64>)
    requires
        not_backward(first, second),
    ensures
        timestamp_of(first) <= timestamp_of(second),
{
}

/// The number of logical CPUs to report for what the host answered.
///
/// `answer` is the host's estimate of the logical CPUs this process may use,
/// or `None` where the host gave none. An estimate of zero is no estimate.
pub open spec fn cpu_count_of(answer: Option<usize>) -> usize {
    match answer {
        Some(n) => if n >= 1 { n } else { 1 },
        None => 1,
    }
}

/// Turns the host's answer into a CPU count that is never zero: the host's
/// own estimate where it gave a positive one, and one otherwise.
pub fn cpu_count(answer: Option<usize>) -> (count: usize)
    ensures
        count == cpu_count_of(answer),
        count >= 1,
{
    match answer {
        Some(n) => if n >= 1 { n } else { 1 },
        None => 1,
    }
}

/// Every CPU count is at least one, so a caller may divide by it.
pub proof fn lemma_cpu_count_positive(answer: Option<usize>)
    ensures
        cpu_count_of(answer) >= 1,
{
}

/// The CPU count depends on the host's answer alone: while the host gives the
/// same answer, the count stays the same.
pub proof fn lemma_cpu_count_stable(first: Option<usize>, second: Option<usize>)
    requires
        first == second,
    ensures
        cpu_count_of(first) == cpu_count_of(second),
{
}

} // verus!
