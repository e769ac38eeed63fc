//! The two clocks of the library: a monotonic one in milliseconds, for
//! stamping input events, and the calendar one in seconds, for dating what
//! is stored.

use std::time::Duration;
use std::time::Instant;
use std::time::SystemTime;
use std::time::SystemTimeError;
use vstd::prelude::*;

verus! {

#[verifier::external_type_specification]
#[verifier::external_body]
pub struct ExInstant(Instant);

/// `Instant::now`: the current reading of the monotonic clock. Nothing is
/// claimed of it.
#[verifier::external_body]
fn instant_now() -> (now: Instant) {
    Instant::now()
}

/// `Instant::elapsed`: the time that has passed since `origin` was read. It
/// differs from call to call, so nothing is claimed of it.
#[verifier::external_body]
fn instant_elapsed(origin: &Instant) -> (elapsed: Duration) {
    origin.elapsed()
}

/// `Duration::as_millis`: the whole milliseconds in `duration`. No value is
/// claimed, since a `Duration` is opaque here.
#[verifier::external_body]
fn duration_as_millis(duration: &Duration) -> (millis: u128) {
    duration.as_millis()
}

#[verifier::external_type_specification]
#[verifier::external_body]
pub struct ExSystemTime(SystemTime);

#[verifier::external_type_specification]
#[verifier::external_body]
pub struct ExSystemTimeError(SystemTimeError);

/// `SystemTime::now`: the current reading of the calendar clock. Nothing is
/// claimed of it.
#[verifier::external_body]
fn system_time_now() -> (now: SystemTime) {
    SystemTime::now()
}

/// `SystemTime::duration_since` with the Unix epoch as the earlier time:
/// how long after the epoch `time` lies, or an error if it lies before.
/// Nothing is claimed of either.
#[verifier::external_body]
fn since_unix_epoch(time: &SystemTime) -> (since: Result<Duration, SystemTimeError>) {
    time.duration_since(std::time::UNIX_EPOCH)
}

/// `Duration::as_secs`: the whole seconds in `duration`. No value is
/// claimed, since a `Duration` is opaque here.
#[verifier::external_body]
fn duration_as_secs(duration: &Duration) -> (secs: u64) {
    duration.as_secs()
}

/// The text of a clock error, as its `Display` gives it. Nothing is claimed
/// of it.
#[verifier::external_body]
fn time_error_text(error: &SystemTimeError) -> (text: String) {
    error.to_string()
}

/// What is put before the text of a clock error.
pub open spec fn timestamp_error_prefix() -> Seq<char> {
    "Failed to get timestamp: "@
}

/// What a reading of the calendar clock gives as a timestamp: the seconds
/// that were read, or the text of the clock's error behind
/// [`timestamp_error_prefix`].
pub open spec fn timestamp_of(reading: Result<u64, Seq<char>>) -> Result<u64, Seq<char>> {
    match reading {
        Ok(secs) => Ok(secs),
        Err(detail) => Err(timestamp_error_prefix() + detail),
    }
}

/// The seconds of a reading of the calendar clock; zero where it failed.
pub open spec fn seconds_of(reading: Result<u64, Seq<char>>) -> u64 {
    match reading {
        Ok(secs) => secs,
        Err(_) => 0,
    }
}

/// A reading with its texts as sequences of characters.
pub open spec fn reading_view(reading: Result<u64, String>) -> Result<u64, Seq<char>> {
    match reading {
        Ok(secs) => Ok(secs),
        Err(detail) => Err(detail@),
    }
}

/// The whole milliseconds `millis` as a `u64`, held at `u64::MAX` beyond
/// that.
pub open spec fn clamped_millis(millis: u128) -> u64 {
    if millis > u64::MAX {
        u64::MAX
    } else {
        millis as u64
    }
}

/// Turns a reading of the calendar clock into a timestamp or a message.
pub fn timestamp_from_reading(reading: Result<u64, String>) -> (result: Result<u64, String>)
    ensures
        reading_view(result) == timestamp_of(reading_view(reading)),
{
    match reading {
        Ok(secs) => Ok(secs),
        Err(detail) => {
            let mut message = String::new();
            message.append("Failed to get timestamp: ");
            message.append(detail.as_str());
            Err(message)
        },
    }
}

/// The seconds of a reading of the calendar clock; zero where it failed.
pub fn seconds_from_reading(reading: &Result<u64, String>) -> (secs: u64)
    ensures
        secs == seconds_of(reading_view(*reading)),
{
    match reading {
        Ok(secs) => *secs,
        Err(_) => 0,
    }
}

/// Holds whole milliseconds within a `u64`.
pub fn clamp_millis(millis: u128) -> (clamped: u64)
    ensures
        clamped == clamped_millis(millis),
{
    if millis > 0xFFFF_FFFF_FFFF_FFFFu128 {
        u64::MAX
    } else {
        millis as u64
    }
}

/// Reads the calendar clock: the seconds since the Unix epoch, or the text
/// of the clock's error where it stands before the epoch.
fn read_calendar_clock() -> (reading: Result<u64, String>) {
    let now = system_time_now();
    match since_unix_epoch(&now) {
        Ok(since) => Ok(duration_as_secs(&since)),
        Err(error) => Err(time_error_text(&error)),
    }
}

/// Seconds since the Unix epoch, or why they cannot be told: a message that
/// begins with [`timestamp_error_prefix`]. The answer is that of
/// [`timestamp_from_reading`] for what the clock reads.
pub fn unix_timestamp() -> (result: Result<u64, String>)
    ensures
        exists|reading: Result<u64, Seq<char>>|
            reading_view(result) == #[trigger] timestamp_of(reading),
        result matches Err(message) ==> timestamp_error_prefix().is_prefix_of(message@),
{
    let reading = read_calendar_clock();
    let result = timestamp_from_reading(reading);
    proof {
        if result is Err {
            assert(result->Err_0@.subrange(0, timestamp_error_prefix().len() as int)
                =~= timestamp_error_prefix());
        }
    }
    result
}

/// Seconds since the Unix epoch; zero where the clock stands before it. The
/// answer is that of [`seconds_from_reading`] for what the clock reads.
pub fn now_ts() -> (secs: u64) {
    let reading = read_calendar_clock();
    seconds_from_reading(&reading)
}

/// Counts milliseconds from the moment it was started.
pub(crate) struct MonotonicClock {
    origin: Instant,
}

impl MonotonicClock {
    /// A clock that reads zero now.
    pub(crate) fn start() -> (clock: Self) {
        MonotonicClock { origin: instant_now() }
    }

    /// Milliseconds since the clock was started, held at `u64::MAX` beyond
    /// that: [`clamp_millis`] of what has elapsed.
    pub(crate) fn now_ms(&self) -> (now: u64) {
        let elapsed = instant_elapsed(&self.origin);
        clamp_millis(duration_as_millis(&elapsed))
    }
}

} // verus!
