//! The system clock as Unix time.
use std::time::{Duration, SystemTime};
use vstd::prelude::*;

verus! {

#[verifier::external_type_specification]
#[verifier::external_body]
pub struct ExSystemTime(SystemTime);

/// `SystemTime::now`. Nothing is stated of the reading: it is the time.
#[verifier::external_body]
fn system_now() -> SystemTime {
    SystemTime::now()
}

/// `SystemTime::duration_since(UNIX_EPOCH)`, `None` for a time before the epoch.
#[verifier::external_body]
fn since_unix_epoch(t: SystemTime) -> Option<Duration> {
    t.duration_since(std::time::UNIX_EPOCH).ok()
}

/// `Duration::as_secs`.
#[verifier::external_body]
fn whole_seconds(d: Duration) -> u64 {
    d.as_secs()
}

/// `Duration::subsec_nanos`: the nanoseconds past the whole seconds, which
/// its documentation says are always fewer than one billion.
#[verifier::external_body]
fn fraction_nanos(d: Duration) -> (r: u32)
    ensures
        r < 1_000_000_000,
{
    d.subsec_nanos()
}

/// Seconds since the Unix epoch, or 0 when the clock reads earlier.
pub fn unix_seconds() -> u64 {
    match since_unix_epoch(system_now()) {
        Some(d) => whole_seconds(d),
        None => 0,
    }
}

/// The time since the Unix epoch as whole seconds and the nanoseconds past
/// them, or `None` when the clock reads earlier than the epoch.
pub fn unix_time() -> (r: Option<(u64, u32)>)
    ensures
        r matches Some(t) ==> t.1 < 1_000_000_000,
{
    match since_unix_epoch(system_now()) {
        Some(d) => Some((whole_seconds(d), fraction_nanos(d))),
        None => None,
    }
}

/// The whole milliseconds in `secs` seconds and `nanos` nanoseconds.
pub open spec fn millis_of(secs: u64, nanos: u32) -> int {
    secs * 1000 + nanos / 1_000_000
}

/// Whether `ms` is the number of whole milliseconds of some duration: some
/// count of seconds and fewer than a billion nanoseconds.
pub open spec fn is_millis_count(ms: u128) -> bool {
    exists|secs: u64, nanos: u32| nanos < 1_000_000_000 && #[trigger] millis_of(secs, nanos) == ms
}

/// Milliseconds since the Unix epoch, or 0 when the clock reads earlier:
/// the reading's whole seconds times 1000 plus its whole milliseconds past
/// them, as `Duration::as_millis` counts them.
pub fn unix_millis() -> (r: u128)
    ensures
        is_millis_count(r),
{
    match since_unix_epoch(system_now()) {
        Some(d) => {
            let secs = whole_seconds(d);
            let nanos = fraction_nanos(d);
            let r = (secs as u128) * 1000 + ((nanos / 1_000_000) as u128);
            assert(millis_of(secs, nanos) == r);
            r
        },
        None => {
            assert(millis_of(0, 0) == 0);
            0
        },
    }
}

} // verus!
