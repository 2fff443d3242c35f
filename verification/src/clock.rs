//! Wall-clock time as plain integers.
//!
//! A point in time is a signed number of nanoseconds relative to the Unix
//! epoch; a time span is an unsigned number of nanoseconds. The standard
//! library's clock and its `Duration` are read here and nowhere else.

use std::time::Duration;
use std::time::SystemTime;
use std::time::SystemTimeError;
use vstd::prelude::*;

verus! {

/// The longest time span, in nanoseconds, that the two parts of a `Duration`
/// can add up to: `u64::MAX` whole seconds and `u32::MAX` nanoseconds.
pub const MAX_SPAN_NANOS: u128 = 18_446_744_073_709_551_619_294_967_295;

/// `std::time::SystemTime`, carried through as an opaque value.
#[verifier::external_type_specification]
#[verifier::external_body]
pub struct ExSystemTime(SystemTime);

/// `std::time::SystemTimeError`, carried through as an opaque value.
#[verifier::external_type_specification]
#[verifier::external_body]
pub struct ExSystemTimeError(SystemTimeError);

/// The whole seconds that `Duration::as_secs` reports for `d`.
pub uninterp spec fn duration_secs(d: Duration) -> u64;

/// The nanoseconds beyond the whole seconds that `Duration::subsec_nanos`
/// reports for `d`.
pub uninterp spec fn duration_subsec_nanos(d: Duration) -> u32;

/// `Duration::as_secs`: the number of whole seconds in the span. Nothing is
/// claimed but that the same span always gives the same number.
pub assume_specification[ Duration::as_secs ](d: &Duration) -> (secs: u64)
    ensures
        secs == duration_secs(*d),
;

/// `Duration::subsec_nanos`: the part of the span beyond its whole seconds, in
/// nanoseconds. Nothing is claimed but that the same span always gives the
/// same number.
pub assume_specification[ Duration::subsec_nanos ](d: &Duration) -> (nanos: u32)
    ensures
        nanos == duration_subsec_nanos(*d),
;

/// `SystemTime::now`: the current reading of the system clock. Nothing is
/// claimed of the reading: two calls may differ, and the clock may be set back.
pub assume_specification[ SystemTime::now ]() -> (t: SystemTime)
;

/// `SystemTimeError::duration`: how far before the reference point the time
/// lay when `SystemTime::duration_since` failed. Nothing is claimed of it.
pub assume_specification[ SystemTimeError::duration ](e: &SystemTimeError) -> (d: Duration)
;

/// `SystemTime::duration_since` with `UNIX_EPOCH` as the earlier time: `Ok`
/// with the span from the epoch to `t`, or `Err` where `t` lies before the
/// epoch. Nothing is claimed of which one comes back.
#[verifier::external_body]
fn since_unix_epoch(t: &SystemTime) -> (elapsed: Result<Duration, SystemTimeError>) {
    t.duration_since(std::time::UNIX_EPOCH)
}

/// The length of `d` in nanoseconds.
pub open spec fn span_nanos(d: Duration) -> nat {
    (duration_secs(d) * 1_000_000_000 + duration_subsec_nanos(d)) as nat
}

/// Whether `t` is a point in time that the clock can report: at most
/// [`MAX_SPAN_NANOS`] before or after the Unix epoch.
pub open spec fn is_clock_reading(t: int) -> bool {
    -(MAX_SPAN_NANOS as int) <= t <= MAX_SPAN_NANOS as int
}

/// The length of `d` in nanoseconds.
pub fn nanos_of(d: &Duration) -> (n: u128)
    ensures
        n == span_nanos(*d),
        n <= MAX_SPAN_NANOS,
{
    let secs: u128 = d.as_secs() as u128;
    let beyond: u128 = d.subsec_nanos() as u128;
    secs * 1_000_000_000 + beyond
}

/// Reads the system clock: the current time in nanoseconds relative to the
/// Unix epoch, negative where the clock stands before the epoch.
pub fn unix_now() -> (now: i128)
    ensures
        is_clock_reading(now as int),
{
    let t = SystemTime::now();
    let elapsed = match since_unix_epoch(&t) {
        Ok(after) => Ok(after),
        Err(e) => Err(e.duration()),
    };
    nanos_from_epoch(elapsed)
}

/// The point in time that lies `elapsed` away from the Unix epoch, in
/// nanoseconds relative to it: after the epoch for `Ok`, before it for `Err`.
pub open spec fn epoch_offset(elapsed: Result<Duration, Duration>) -> int {
    match elapsed {
        Ok(after) => span_nanos(after) as int,
        Err(before) => -(span_nanos(before) as int),
    }
}

/// The point in time that lies `elapsed` away from the Unix epoch, in
/// nanoseconds relative to it: after the epoch for `Ok`, before it for `Err`.
/// This is how a reading of the clock becomes a number.
pub fn nanos_from_epoch(elapsed: Result<Duration, Duration>) -> (t: i128)
    ensures
        t == epoch_offset(elapsed),
        is_clock_reading(t as int),
{
    match elapsed {
        Ok(after) => nanos_of(&after) as i128,
        Err(before) => -(nanos_of(&before) as i128),
    }
}

} // verus!
