//! Points in time: seconds and nanoseconds since the Unix epoch, read
//! from the clock and rendered through the `chrono` crate.

use vstd::prelude::*;

verus! {

/// A point in time as non-leap seconds since 1970-01-01 00:00:00 UTC and
/// the nanoseconds since that second began.
#[derive(Debug, Clone, Copy, PartialEq, Eq, Structural)]
pub struct Timestamp {
    pub seconds: i64,
    pub nanos: u32,
}

/// The text that `chrono` renders a point in time to under a `strftime`
/// pattern, where the point in time is one that `chrono` can represent.
pub uninterp spec fn rendered_time(seconds: int, nanos: int, pattern: Seq<char>) -> Option<
    Seq<char>,
>;

/// The pattern for a date and a time of day down to the second.
pub open spec fn seconds_pattern() -> Seq<char> {
    "%Y-%m-%d %H:%M:%S"@
}

/// `Utc::now`, read as `DateTime::timestamp` and
/// `DateTime::timestamp_subsec_nanos`: the current time. Nothing is
/// claimed of the value, which differs from call to call. `chrono` takes
/// the system clock to stand at or after the Unix epoch.
#[verifier::external_body]
pub(crate) fn current_time() -> (now: Timestamp) {
    let now = chrono::Utc::now();
    Timestamp { seconds: now.timestamp(), nanos: now.timestamp_subsec_nanos() }
}

/// `DateTime::from_timestamp` followed by `DateTime::format`: the point
/// in time rendered in UTC under the pattern; nothing where the seconds
/// are out of `chrono`'s range or the nanoseconds invalid. The result
/// depends on the arguments alone. Only the date-and-time pattern is let
/// in, since `chrono` cannot render under a pattern that is malformed.
#[verifier::external_body]
pub(crate) fn render_time(time: &Timestamp, pattern: &str) -> (text: Option<String>)
    requires
        pattern@ == seconds_pattern(),
    ensures
        text.deep_view() == rendered_time(time.seconds as int, time.nanos as int, pattern@),
{
    chrono::DateTime::from_timestamp(time.seconds, time.nanos).map(
        |moment| moment.format(pattern).to_string(),
    )
}

#[verifier::external_type_specification]
#[verifier::external_body]
pub struct ExInstant(std::time::Instant);

/// `Instant::now`: a reading of the monotonic clock. Nothing is claimed
/// of the value.
#[verifier::external_body]
pub(crate) fn instant_now() -> (now: std::time::Instant) {
    std::time::Instant::now()
}

/// `Instant::elapsed`, in whole seconds: the time that has passed since
/// the reading was taken. Nothing is claimed of the value, which grows
/// from call to call.
#[verifier::external_body]
pub(crate) fn elapsed_seconds(start: &std::time::Instant) -> (seconds: u64) {
    start.elapsed().as_secs()
}

/// The text used for a point in time that cannot be rendered.
pub open spec fn unknown_time_text() -> Seq<char> {
    "unknown time"@
}

/// A point in time as `YYYY-MM-DD HH:MM:SS` in UTC.
pub open spec fn time_text_spec(time: Timestamp) -> Seq<char> {
    match rendered_time(time.seconds as int, time.nanos as int, seconds_pattern()) {
        Some(text) => text,
        None => unknown_time_text(),
    }
}

/// Renders a point in time as `YYYY-MM-DD HH:MM:SS` in UTC.
pub fn time_text(time: &Timestamp) -> (text: String)
    ensures
        text@ == time_text_spec(*time),
{
    match render_time(time, "%Y-%m-%d %H:%M:%S") {
        Some(text) => text,
        None => String::from_str("unknown time"),
    }
}

} // verus!
