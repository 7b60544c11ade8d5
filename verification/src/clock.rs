//! Points in time.

use vstd::prelude::*;

verus! {

/// A point in time: whole seconds since the start of 1970 in UTC, not
/// counting leap seconds, and the nanoseconds since that second began.
#[derive(Debug, Clone, Copy, PartialEq, Eq, Structural)]
pub struct Timestamp {
    pub seconds: i64,
    pub nanoseconds: u32,
}

/// The text that `chrono` writes by RFC 3339 for the time of `seconds` and
/// `nanoseconds` in UTC, such as `2024-05-17T09:30:00.123456789+00:00`;
/// `None` where the two numbers are no time that `chrono` can hold.
pub uninterp spec fn rfc3339(seconds: i64, nanoseconds: u32) -> Option<Seq<char>>;

/// `chrono::Utc::now`, read by `timestamp` and `timestamp_subsec_nanos`:
/// the time of the system clock. The clock is read to the nanosecond, so
/// the nanoseconds stay below one second; and what was read off a time is
/// a time that can be written.
#[verifier::external_body]
fn system_time() -> (time: Timestamp)
    ensures
        time.nanoseconds < 1_000_000_000,
        rfc3339(time.seconds, time.nanoseconds) is Some,
{
    let time = chrono::Utc::now();
    Timestamp { seconds: time.timestamp(), nanoseconds: time.timestamp_subsec_nanos() }
}

/// `chrono::DateTime::to_rfc3339`, on the time that
/// `chrono::DateTime::from_timestamp` makes of the two numbers: the time as
/// text, or `None` where the numbers are out of range.
#[verifier::external_body]
fn timestamp_text(seconds: i64, nanoseconds: u32) -> (text: Option<String>)
    ensures
        match text {
            Some(written) => rfc3339(seconds, nanoseconds) == Some(written@),
            None => rfc3339(seconds, nanoseconds) is None,
        },
{
    match chrono::DateTime::from_timestamp(seconds, nanoseconds) {
        Some(time) => Some(time.to_rfc3339()),
        None => None,
    }
}

/// The time of the system clock as text, such as
/// `2024-05-17T09:30:00.123456789+00:00`: the text that stands by RFC 3339
/// for the time that the clock gave.
pub fn now_rfc3339() -> (text: String)
    ensures
        exists|time: Timestamp|
            time.wf() && #[trigger] rfc3339(time.seconds, time.nanoseconds) == Some(text@),
{
    let now = system_time();
    let text = timestamp_text(now.seconds, now.nanoseconds);
    assert(now.wf() && rfc3339(now.seconds, now.nanoseconds) == Some(text->Some_0@));
    text.unwrap()
}

impl Timestamp {
    /// Whether the nanoseconds of this time stay below one second.
    pub open spec fn wf(&self) -> bool {
        self.nanoseconds < 1_000_000_000
    }

    /// The time of the system clock.
    pub fn now() -> (time: Timestamp)
        ensures
            time.wf(),
    {
        system_time()
    }
}

} // verus!
