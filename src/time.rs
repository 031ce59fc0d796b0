//! Conversions from the protocol's whole-second integers to std's time types.
use vstd::prelude::*;
use std::time::{Duration, SystemTime};

verus! {

/// Declares `std::time::SystemTime`, which the time accessors return; it
/// is only carried, never read.
#[verifier::external_type_specification]
#[verifier::external_body]
pub struct ExSystemTime(SystemTime);

/// The span of `secs` whole seconds; it depends on `secs` alone.
pub uninterp spec fn duration_of_secs(secs: u64) -> Duration;

/// Relies on `Duration::from_secs`: the span of exactly `secs` seconds.
#[verifier::external_body]
pub(crate) fn secs_duration(secs: u64) -> (r: Duration)
    ensures
        r == duration_of_secs(secs),
{
    Duration::from_secs(secs)
}

/// The span of `millis` milliseconds; it depends on `millis` alone.
pub uninterp spec fn duration_of_millis(millis: u64) -> Duration;

/// Relies on `Duration::from_millis`: the span of exactly `millis`
/// milliseconds.
#[verifier::external_body]
pub(crate) fn millis_duration(millis: u64) -> (r: Duration)
    ensures
        r == duration_of_millis(millis),
{
    Duration::from_millis(millis)
}

/// Relies on `SystemTime::checked_add` from `SystemTime::UNIX_EPOCH`: the
/// instant `d` after the epoch, or `None` where the platform cannot
/// represent it. The range beyond that depends on the platform; every
/// platform std supports represents any `i32` count of seconds after the
/// epoch, so for such a span the instant is there.
#[verifier::external_body]
pub(crate) fn epoch_plus(d: Duration) -> (r: Option<SystemTime>)
    ensures
        (exists|s: u64| s <= i32::MAX as u64 && d == duration_of_secs(s)) ==> r is Some,
{
    SystemTime::UNIX_EPOCH.checked_add(d)
}

/// The instant `secs` whole seconds after the epoch; present at least for
/// every count up to `i32::MAX`.
pub(crate) fn epoch_plus_secs(secs: u64) -> (r: Option<SystemTime>)
    ensures
        secs <= i32::MAX as u64 ==> r is Some,
{
    let d = secs_duration(secs);
    proof {
        if secs <= i32::MAX as u64 {
            assert(secs <= i32::MAX as u64 && d == duration_of_secs(secs));
        }
    }
    epoch_plus(d)
}

} // verus!
