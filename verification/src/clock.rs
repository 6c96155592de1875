//! Time as the tables and the handler read it: nanoseconds, as integers.

use std::time::Duration;
use std::time::Instant;
use std::time::SystemTime;
use vstd::prelude::*;

verus! {

/// `std::time::Instant`, a reading of the monotonic clock; carried, never
/// looked into.
#[verifier::external_type_specification]
#[verifier::external_body]
pub struct ExInstant(Instant);

/// `std::time::SystemTime`, a reading of the wall clock; carried, never
/// looked into.
#[verifier::external_type_specification]
#[verifier::external_body]
pub struct ExSystemTime(SystemTime);

/// The whole number of nanoseconds that a `Duration` holds.
pub uninterp spec fn duration_nanos(span: Duration) -> nat;

/// `Duration::MAX` in nanoseconds: `u64::MAX` seconds and 999,999,999
/// nanoseconds.
pub const MAX_DURATION_NANOS: u128 = 18_446_744_073_709_551_615_999_999_999;

/// `Duration::from_secs` holds exactly `secs` whole seconds.
pub assume_specification[ Duration::from_secs ](secs: u64) -> (span: Duration)
    ensures
        duration_nanos(span) == secs * 1_000_000_000,
;

/// `Duration::as_nanos` is the total number of nanoseconds, which no
/// `Duration` can hold more of than `Duration::MAX`.
pub assume_specification[ Duration::as_nanos ](span: &Duration) -> (nanos: u128)
    ensures
        nanos == duration_nanos(*span),
        nanos <= MAX_DURATION_NANOS,
;

/// `Duration::as_secs` is the number of whole seconds.
pub assume_specification[ Duration::as_secs ](span: &Duration) -> (secs: u64)
    ensures
        secs == duration_nanos(*span) / 1_000_000_000,
;

/// `Instant::now` reads the monotonic clock; nothing is claimed of the
/// reading.
pub assume_specification[ Instant::now ]() -> (now: Instant)
;

/// `Instant::elapsed` is the time since the instant was taken; nothing is
/// claimed of its length.
pub assume_specification[ Instant::elapsed ](start: &Instant) -> (span: Duration)
;

/// `SystemTime::now` reads the wall clock; nothing is claimed of the reading.
pub assume_specification[ SystemTime::now ]() -> (now: SystemTime)
;

/// Calls `SystemTime::duration_since` against `UNIX_EPOCH`. `None` stands
/// for a clock set before the epoch.
#[verifier::external_body]
pub(crate) fn since_unix_epoch(moment: &SystemTime) -> (span: Option<Duration>) {
    moment.duration_since(std::time::UNIX_EPOCH).ok()
}

/// Nanoseconds on the monotonic clock since `epoch`.
pub fn nanos_since(epoch: &Instant) -> (nanos: u128)
    ensures
        nanos <= MAX_DURATION_NANOS,
{
    let span = epoch.elapsed();
    span.as_nanos()
}

/// Nanoseconds on the wall clock since the Unix epoch, or `None` where the
/// clock is set before it.
pub fn unix_nanos() -> (nanos: Option<u128>)
    ensures
        nanos matches Some(n) ==> n <= MAX_DURATION_NANOS,
{
    let moment = SystemTime::now();
    match since_unix_epoch(&moment) {
        Some(span) => Some(span.as_nanos()),
        None => None,
    }
}

} // verus!
