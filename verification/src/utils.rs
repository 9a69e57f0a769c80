//! Clocks: the local time of day, for log lines and events, and the
//! monotonic clock, for the console's own timing.
use vstd::prelude::*;

verus! {

/// A point in time on the monotonic clock.
#[verifier::external_type_specification]
#[verifier::external_body]
pub struct ExInstant(std::time::Instant);

/// The monotonic clock's present reading.
///
/// Wraps `std::time::Instant::now`. The result depends on the clock, so the
/// contract promises nothing of it.
#[verifier::external_body]
pub(crate) fn monotonic_now() -> std::time::Instant {
    std::time::Instant::now()
}

/// The time that has passed since `start`.
///
/// Wraps `std::time::Instant::elapsed`. The result depends on the clock, so
/// the contract promises nothing of it.
#[verifier::external_body]
pub(crate) fn elapsed_since(start: &std::time::Instant) -> core::time::Duration {
    start.elapsed()
}

/// The whole milliseconds of a span of time.
///
/// Wraps `std::time::Duration::as_millis`. A span of time is opaque here, so
/// the contract promises nothing of the result.
#[verifier::external_body]
pub(crate) fn whole_millis(span: &core::time::Duration) -> u128 {
    span.as_millis()
}

/// A count of milliseconds in the 64 bits in which the console keeps its
/// clock readings: a count that does not fit reads as the largest value.
pub open spec fn saturated_millis(millis: u128) -> u64 {
    if millis > u64::MAX {
        u64::MAX
    } else {
        millis as u64
    }
}

/// Brings a count of milliseconds into 64 bits; a count that does not fit
/// becomes the largest value.
pub fn saturate_millis(millis: u128) -> (reading: u64)
    ensures
        reading == saturated_millis(millis),
{
    if millis > u64::MAX as u128 {
        u64::MAX
    } else {
        millis as u64
    }
}

/// Whether `t` reads `HH:MM:SS`.
pub open spec fn is_clock_text(t: Seq<char>) -> bool {
    &&& t.len() == 8
    &&& t[2] == ':'
    &&& t[5] == ':'
    &&& forall|i: int| 0 <= i < 8 && i != 2 && i != 5 ==> '0' <= #[trigger] t[i] <= '9'
}

/// One reading of the local clock.
pub(crate) struct ClockReading {
    /// The milliseconds since the Unix epoch.
    pub unix_millis: i64,
    /// The local time of day, as `HH:MM:SS`.
    pub time_of_day: String,
}

/// Reads the local clock.
///
/// Wraps `chrono::Local::now`, and reads what it returns with
/// `DateTime::timestamp_millis` and `DateTime::format("%H:%M:%S")`. The
/// result depends on the clock and on the machine's time zone. The three
/// fields of the time of day are documented to be zero-padded to two digits
/// each, which is all that the contract says. A time zone that cannot be
/// read counts as UTC. Only where the zone's data gives no offset for the
/// instant does chrono panic; the contract does not speak of that.
#[verifier::external_body]
pub(crate) fn read_local_clock() -> (reading: ClockReading)
    ensures
        is_clock_text(reading.time_of_day@),
{
    let now = chrono::Local::now();
    ClockReading {
        unix_millis: now.timestamp_millis(),
        time_of_day: now.format("%H:%M:%S").to_string(),
    }
}

/// The largest count of milliseconds that, counted in nanoseconds, fits in
/// 64 bits: about 292 years.
pub const NANOS_REACH_MILLIS: i64 = 9_223_372_036_854;

/// Whether the instant `millis` milliseconds after the Unix epoch lies
/// within what a 64-bit count of nanoseconds reaches, to either side of the
/// epoch.
pub open spec fn in_nanos_reach(millis: i64) -> bool {
    -NANOS_REACH_MILLIS <= millis <= NANOS_REACH_MILLIS
}

/// The local time of day, as `HH:MM:SS`, of the instant `millis` milliseconds
/// after the Unix epoch, or `None` where the calendar does not reach it.
///
/// Wraps `chrono::TimeZone::timestamp_millis_opt` on `chrono::Local` and
/// formats a single result with `DateTime::format("%H:%M:%S")`. The result
/// depends on the machine's time zone. Two things are documented and
/// claimed here. The three fields are zero-padded to two digits each. And
/// the calendar holds every instant that a 64-bit count of nanoseconds
/// reaches (`DateTime::from_timestamp_nanos` never fails), while
/// `timestamp_millis_opt` gives a single result for every instant that the
/// calendar holds; how much further the calendar goes is not claimed. A
/// time zone that cannot be read counts as UTC. Only where the zone's data
/// gives no offset for the instant does chrono panic; the contract does not
/// speak of that.
#[verifier::external_body]
fn local_clock_text_at(millis: i64) -> (clock: Option<String>)
    ensures
        in_nanos_reach(millis) ==> clock is Some,
        clock matches Some(t) ==> is_clock_text(t@),
{
    match chrono::TimeZone::timestamp_millis_opt(&chrono::Local, millis) {
        chrono::LocalResult::Single(t) => Some(t.format("%H:%M:%S").to_string()),
        chrono::LocalResult::Ambiguous(_, _) => None,
        chrono::LocalResult::None => None,
    }
}

/// The local time of day, as `HH:MM:SS`, of a timestamp in milliseconds
/// since the Unix epoch. `None` for a timestamp that lies outside the
/// calendar, which holds at least the 292 years to either side of the
/// epoch.
pub fn get_local_timestring(time: i64) -> (clock: Option<String>)
    ensures
        in_nanos_reach(time) ==> clock is Some,
        clock matches Some(t) ==> is_clock_text(t@),
{
    local_clock_text_at(time)
}

} // verus!
