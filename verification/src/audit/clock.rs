//! Timestamps of audit events.
use std::time::{SystemTime, SystemTimeError, UNIX_EPOCH};
use vstd::prelude::*;

verus! {

/// `std::time::SystemTime`, a reading of the system clock.
#[verifier::external_type_specification]
#[verifier::external_body]
pub struct ExSystemTime(SystemTime);

/// `std::time::SystemTimeError`, the error of a clock reading that lies before
/// the time it is measured from.
#[verifier::external_type_specification]
#[verifier::external_body]
pub struct ExSystemTimeError(SystemTimeError);

/// `SystemTime::now` reads the system clock. Nothing is claimed of the reading.
pub assume_specification[ SystemTime::now ]() -> (r: SystemTime)
;

/// `SystemTime::duration_since`, applied to the Unix epoch: how long after the
/// epoch the reading was taken, as whole seconds and the nanoseconds beyond
/// them, or an error if it lies before the epoch. The nanoseconds are less than
/// a second. Which outcome comes, and which numbers, depends on the clock, and
/// nothing is claimed of it.
#[verifier::external_body]
fn since_unix_epoch(reading: SystemTime) -> (r: Result<(u64, u32), SystemTimeError>)
    ensures
        r matches Ok(since) ==> since.1 < NANOS_PER_SEC,
{
    let since = reading.duration_since(UNIX_EPOCH)?;
    Ok((since.as_secs(), since.subsec_nanos()))
}

/// Nanoseconds of a second.
pub const NANOS_PER_SEC: u32 = 1_000_000_000;

/// Nanoseconds of a millisecond.
pub const NANOS_PER_MILLI: u32 = 1_000_000;

/// The whole milliseconds of a duration of `since.0` seconds and `since.1` nanoseconds.
pub open spec fn whole_millis(since: (u64, u32)) -> int {
    since.0 * 1000 + since.1 / NANOS_PER_MILLI
}

/// The timestamp of a moment `since_epoch` after the Unix epoch, or before it
/// if there is no such duration: clamped to what an event can hold.
pub open spec fn timestamp(since_epoch: Option<(u64, u32)>) -> int {
    match since_epoch {
        Some(since) => if whole_millis(since) > u64::MAX {
            u64::MAX as int
        } else {
            whole_millis(since)
        },
        None => 0,
    }
}

/// The whole milliseconds of a duration of `since.0` seconds and `since.1` nanoseconds.
fn millis_of(since: (u64, u32)) -> (r: u128)
    ensures
        r == whole_millis(since),
{
    since.0 as u128 * 1000 + (since.1 / NANOS_PER_MILLI) as u128
}

/// Whether a clock reading lies past the last moment that a timestamp can hold.
pub fn exceeds_timestamp(since_epoch: Option<(u64, u32)>) -> (r: bool)
    ensures
        r == (since_epoch matches Some(since) && whole_millis(since) > u64::MAX),
        r == (since_epoch matches Some((secs, nanos)) && secs * 1_000_000_000 + nanos >= (u64::MAX
            + 1) * 1_000_000),
{
    match since_epoch {
        Some(since) => millis_of(since) > u64::MAX as u128,
        None => false,
    }
}

/// The timestamp of a clock reading, in milliseconds since the Unix epoch. A
/// clock before the epoch gives 0, one past the last representable moment
/// gives `u64::MAX`.
pub fn clamp_unix_millis(since_epoch: Option<(u64, u32)>) -> (r: u64)
    ensures
        r == timestamp(since_epoch),
        since_epoch is None ==> r == 0,
        since_epoch matches Some((secs, nanos)) ==> {
            let elapsed = secs * 1_000_000_000 + nanos;
            if elapsed < (u64::MAX + 1) * 1_000_000 {
                r * 1_000_000 <= elapsed < (r + 1) * 1_000_000
            } else {
                r == u64::MAX
            }
        },
{
    match since_epoch {
        Some(since) => {
            let millis: u128 = millis_of(since);
            if millis > u64::MAX as u128 {
                u64::MAX
            } else {
                millis as u64
            }
        },
        None => 0,
    }
}

/// The clock stands before the Unix epoch.
#[derive(Debug)]
pub struct ClockBeforeEpoch {
    /// What `SystemTime::duration_since` reported.
    pub error: SystemTimeError,
}

/// `outcome` came of reading the clock: `since_unix_epoch` gave it for a
/// reading that `SystemTime::now` returned.
pub closed spec fn is_clock_reading(outcome: Result<(u64, u32), SystemTimeError>) -> bool {
    exists|reading: SystemTime|
        {
            &&& call_ensures(SystemTime::now, (), reading)
            &&& #[trigger] call_ensures(since_unix_epoch, (reading,), outcome)
        }
}

/// How long after the Unix epoch a reading was taken; nothing if it lies before.
pub open spec fn moment(outcome: Result<(u64, u32), SystemTimeError>) -> Option<(u64, u32)> {
    match outcome {
        Ok(since) => Some(since),
        Err(_) => None,
    }
}

/// `now` is the timestamp of an outcome of reading the clock.
pub open spec fn is_current(now: u64) -> bool {
    exists|outcome: Result<(u64, u32), SystemTimeError>| #[trigger]
        is_clock_reading(outcome) && now == timestamp(moment(outcome))
}

/// A timestamp is current only if it was computed from what the clock gave:
/// the whole milliseconds between the Unix epoch and a reading, unless the
/// reading lies before the epoch or past the last timestamp.
proof fn law_current_time_comes_from_the_clock(now: u64)
    requires
        is_current(now),
    ensures
        exists|reading: SystemTime, outcome: Result<(u64, u32), SystemTimeError>|
            {
                &&& call_ensures(SystemTime::now, (), reading)
                &&& #[trigger] call_ensures(since_unix_epoch, (reading,), outcome)
                &&& match outcome {
                    Ok((secs, nanos)) => {
                        let elapsed = secs * 1_000_000_000 + nanos;
                        if elapsed < (u64::MAX + 1) * 1_000_000 {
                            now * 1_000_000 <= elapsed < (now + 1) * 1_000_000
                        } else {
                            now == u64::MAX
                        }
                    },
                    Err(_) => now == 0,
                }
            },
{
    let outcome = choose|outcome: Result<(u64, u32), SystemTimeError>| #[trigger]
        is_clock_reading(outcome) && now == timestamp(moment(outcome));
    let reading = choose|reading: SystemTime|
        {
            &&& call_ensures(SystemTime::now, (), reading)
            &&& #[trigger] call_ensures(since_unix_epoch, (reading,), outcome)
        };
    assert(call_ensures(since_unix_epoch, (reading,), outcome));
}

/// What counts as an outcome of reading the clock is one that the clock gave.
proof fn law_reading_comes_from_the_clock(outcome: Result<(u64, u32), SystemTimeError>)
    requires
        is_clock_reading(outcome),
    ensures
        exists|reading: SystemTime|
            {
                &&& call_ensures(SystemTime::now, (), reading)
                &&& #[trigger] call_ensures(since_unix_epoch, (reading,), outcome)
            },
{
}

/// Reads the clock: how long after the Unix epoch it stands, as whole seconds
/// and the nanoseconds beyond them, or the error if it stands before the epoch.
/// Which of these comes rests on the clock.
pub fn read_clock() -> (r: Result<(u64, u32), ClockBeforeEpoch>)
    ensures
        match r {
            Ok(since) => is_clock_reading(Ok(since)) && since.1 < 1_000_000_000,
            Err(e) => is_clock_reading(Err(e.error)),
        },
{
    let reading = SystemTime::now();
    match since_unix_epoch(reading) {
        Ok(since) => Ok(since),
        Err(error) => Err(ClockBeforeEpoch { error }),
    }
}

/// The current time in milliseconds since the Unix epoch, clamped as
/// [`clamp_unix_millis`] does. Which reading it comes from rests on the clock.
pub fn now_unix_millis() -> (r: u64)
    ensures
        is_current(r),
{
    match read_clock() {
        Ok(since) => clamp_unix_millis(Some(since)),
        Err(_) => clamp_unix_millis(None),
    }
}

} // verus!
