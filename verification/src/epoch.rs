//! Instants of the system clock as offsets from the Unix epoch.

use std::time::{Duration, SystemTime, SystemTimeError};
use vstd::prelude::*;

verus! {

/// `std::time::SystemTime`, an opaque instant of the system clock.
#[verifier::external_type_specification]
#[verifier::external_body]
pub struct ExSystemTime(SystemTime);

/// `std::time::SystemTimeError`, the error of measuring an instant from a
/// later one.
#[verifier::external_type_specification]
#[verifier::external_body]
pub struct ExSystemTimeError(SystemTimeError);

/// What `SystemTime::duration_since` returns for an instant when it is
/// measured from `UNIX_EPOCH`: the time elapsed, or `None` for an instant
/// before the epoch.
pub uninterp spec fn elapsed_since_epoch(time: SystemTime) -> Option<Duration>;

/// What `Duration::as_secs` returns: the whole seconds of a duration.
pub uninterp spec fn whole_seconds(elapsed: Duration) -> u64;

/// What `Duration::subsec_nanos` returns: the part of a duration below one
/// second, in nanoseconds.
pub uninterp spec fn subsecond_nanos(elapsed: Duration) -> u32;

/// Measures an instant from the Unix epoch.
///
/// Calls `SystemTime::duration_since` with `UNIX_EPOCH`. Trusted: the
/// duration is the named one for the instant, and the call fails exactly
/// where there is none, which std documents as the instant lying before the
/// epoch.
#[verifier::external_body]
pub(crate) fn since_epoch(time: SystemTime) -> (elapsed: Result<Duration, SystemTimeError>)
    ensures
        match elapsed {
            Ok(duration) => elapsed_since_epoch(time) == Some(duration),
            Err(_) => elapsed_since_epoch(time) is None,
        },
{
    time.duration_since(std::time::UNIX_EPOCH)
}

/// `Duration::as_secs` returns the whole seconds of the duration.
pub assume_specification[ Duration::as_secs ](elapsed: &Duration) -> (seconds: u64)
    ensures
        seconds == whole_seconds(*elapsed),
;

/// `Duration::subsec_nanos` returns the nanoseconds below one second, which
/// std documents to be fewer than a thousand million.
pub assume_specification[ Duration::subsec_nanos ](elapsed: &Duration) -> (nanos: u32)
    ensures
        nanos == subsecond_nanos(*elapsed),
        nanos < 1_000_000_000,
;

/// An instant as whole seconds and nanoseconds since the Unix epoch, or
/// `None` for an instant before the epoch.
pub open spec fn since_unix_epoch(time: SystemTime) -> Option<(u64, u32)> {
    match elapsed_since_epoch(time) {
        Some(elapsed) => Some((whole_seconds(elapsed), subsecond_nanos(elapsed))),
        None => None,
    }
}

/// Measures an instant from the Unix epoch, in seconds and nanoseconds.
pub fn unix_offset(time: SystemTime) -> (offset: Option<(u64, u32)>)
    ensures
        offset == since_unix_epoch(time),
        offset matches Some((_, nanos)) ==> nanos < 1_000_000_000,
{
    match since_epoch(time) {
        Ok(elapsed) => Some((elapsed.as_secs(), elapsed.subsec_nanos())),
        Err(_) => None,
    }
}

} // verus!
