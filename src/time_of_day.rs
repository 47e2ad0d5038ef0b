//! Time of day in whole nanoseconds since midnight, and the phase of each
//! clock hand within its period.
use chrono::Timelike;
use vstd::prelude::*;

verus! {

pub const NANOS_PER_SECOND: u64 = 1_000_000_000;

pub const SECONDS_PER_DAY: u64 = 86_400;

/// Period of the second hand: one minute.
pub const SECOND_HAND_PERIOD: u64 = 60 * NANOS_PER_SECOND;

/// Period of the minute hand: one hour.
pub const MINUTE_HAND_PERIOD: u64 = 3_600 * NANOS_PER_SECOND;

/// Period of the hour hand: twelve hours.
pub const HOUR_HAND_PERIOD: u64 = 43_200 * NANOS_PER_SECOND;

/// Largest time of day, in nanoseconds, that the local clock reports; the
/// nanoseconds of a leap second run past one second.
pub const MAX_TIME_OF_DAY: u64 = (SECONDS_PER_DAY - 1) * NANOS_PER_SECOND + 2 * NANOS_PER_SECOND - 1;

/// Relies on chrono's `Local::now` for the current local date and time, and on
/// `Timelike::num_seconds_from_midnight` (non-leap seconds past midnight,
/// 0 to 86399) and `Timelike::nanosecond` (below 2,000,000,000, the range
/// above 999,999,999 standing for a leap second) of its time of day.
#[verifier::external_body]
fn local_time_of_day() -> (r: (u32, u32))
    ensures
        r.0 < SECONDS_PER_DAY,
        r.1 < 2 * NANOS_PER_SECOND,
{
    let time = chrono::Local::now().time();
    (time.num_seconds_from_midnight(), time.nanosecond())
}

/// Nanoseconds since midnight of the time `seconds` past midnight plus
/// `nanos` nanoseconds.
pub fn nanos_of_day(seconds: u32, nanos: u32) -> (r: u64)
    requires
        seconds < SECONDS_PER_DAY,
        nanos < 2 * NANOS_PER_SECOND,
    ensures
        r == seconds * NANOS_PER_SECOND + nanos,
        r <= MAX_TIME_OF_DAY,
{
    seconds as u64 * NANOS_PER_SECOND + nanos as u64
}

/// The local time of day, in nanoseconds since midnight.
pub fn nanos_since_midnight() -> (r: u64)
    ensures
        r <= MAX_TIME_OF_DAY,
{
    let (seconds, nanos) = local_time_of_day();
    nanos_of_day(seconds, nanos)
}

/// Position of a hand within its period: the time since the start of the
/// current period. The hand's angle is `phase / period` of a full turn,
/// measured clockwise from straight up.
pub fn hand_phase(time: u64, period: u64) -> (r: u64)
    requires
        period > 0,
    ensures
        r == time % period,
        r < period,
{
    time % period
}

/// The phases of the three hands at one instant.
#[derive(Clone, Copy, Debug, PartialEq, Eq, Structural)]
pub struct HandPhases {
    pub second: u64,
    pub minute: u64,
    pub hour: u64,
}

/// The phase of each hand at `time` nanoseconds since midnight.
pub fn hand_phases(time: u64) -> (r: HandPhases)
    ensures
        r.second == time % SECOND_HAND_PERIOD,
        r.minute == time % MINUTE_HAND_PERIOD,
        r.hour == time % HOUR_HAND_PERIOD,
{
    HandPhases {
        second: hand_phase(time, SECOND_HAND_PERIOD),
        minute: hand_phase(time, MINUTE_HAND_PERIOD),
        hour: hand_phase(time, HOUR_HAND_PERIOD),
    }
}

} // verus!
