//! The clock and the durations that messages carry.
use core::time::Duration;
use std::time::SystemTime;
use vstd::prelude::*;

verus! {

/// std's `SystemTime`, carried through unchanged.
#[verifier::external_type_specification]
#[verifier::external_body]
pub struct ExSystemTime(SystemTime);

/// The current time of the system clock.
///
/// Calls std's `SystemTime::now`. The result depends on the clock, so nothing
/// is claimed of it.
#[verifier::external_body]
fn system_now() -> SystemTime {
    SystemTime::now()
}

/// How far `t` lies from the Unix epoch: `Ok` with the distance when `t` is
/// at or after it, `Err` with the distance when `t` is before it.
///
/// Calls std's `SystemTime::duration_since` with `UNIX_EPOCH`, and reads the
/// distance out of its error with `SystemTimeError::duration`. Nothing is
/// claimed of the durations: `SystemTime` is opaque here.
#[verifier::external_body]
fn since_unix_epoch(t: &SystemTime) -> Result<Duration, Duration> {
    match t.duration_since(SystemTime::UNIX_EPOCH) {
        Ok(d) => Ok(d),
        Err(e) => Err(e.duration()),
    }
}

/// The whole number of milliseconds in `d`, as std's `Duration::as_millis` gives it.
pub uninterp spec fn duration_millis(d: Duration) -> u128;

/// std's `Duration::as_millis`: its result is a function of its argument
/// alone, named [`duration_millis`].
pub assume_specification[ core::time::Duration::as_millis ](d: &Duration) -> (r: u128)
    ensures
        r == duration_millis(*d),
;

/// The current time, in whole milliseconds since the Unix epoch (UTC),
/// negative before it (truncated toward the epoch), and held at the bounds of
/// `i64` beyond them. Never fails, whatever the clock says.
pub(crate) fn now_millis() -> i64 {
    let now = system_now();
    match since_unix_epoch(&now) {
        Ok(after) => {
            let millis = after.as_millis();
            if millis <= i64::MAX as u128 {
                millis as i64
            } else {
                i64::MAX
            }
        },
        Err(before) => {
            let millis = before.as_millis();
            if millis <= i64::MAX as u128 {
                -(millis as i64)
            } else {
                i64::MIN
            }
        },
    }
}

/// The duration of `millis` milliseconds, as std's `Duration::from_millis` gives it.
pub uninterp spec fn duration_from_millis(millis: u64) -> Duration;

/// std's `Duration::from_millis`: its result is a function of its argument
/// alone, named [`duration_from_millis`], and holds exactly `millis`
/// milliseconds, as std documents.
pub assume_specification[ core::time::Duration::from_millis ](millis: u64) -> (d: Duration)
    ensures
        d == duration_from_millis(millis),
        duration_millis(d) == millis as u128,
;

} // verus!
