//! Points in time, as HTTP headers give them.

use vstd::prelude::*;

verus! {

/// The earliest second that a timestamp can hold, counted from the start of 1970: that at which
/// the year 262144 BCE begins.
pub const MIN_SECONDS: i64 = -8334601228800;

/// The latest second that a timestamp can hold, counted from the start of 1970: that with which
/// the year 262142 ends.
pub const MAX_SECONDS: i64 = 8210266876799;

/// The text in which the `chrono` crate shows the point in time `seconds` and `nanoseconds` after
/// the start of 1970, as a clock shows it that runs `offset` seconds ahead of UTC.
pub uninterp spec fn date_time_text(seconds: i64, nanoseconds: u32, offset: i32) -> Seq<char>;

/// The point in time that the `chrono` crate reads in a text that follows RFC 2822: seconds and
/// nanoseconds since the start of 1970, and the offset from UTC in seconds.
pub uninterp spec fn rfc2822_date_time(text: Seq<char>) -> Option<(i64, u32, i32)>;

/// Whether the numbers stand for a point in time. More than a second of nanoseconds marks a leap
/// second, which only ever follows the last second of a minute.
pub open spec fn is_date_time(seconds: i64, nanoseconds: u32, offset: i32) -> bool {
    &&& MIN_SECONDS <= seconds <= MAX_SECONDS
    &&& nanoseconds < 2_000_000_000
    &&& nanoseconds >= 1_000_000_000 ==> seconds % 60 == 59
    &&& -86_400 < offset < 86_400
}

/// A point in time, with the offset from UTC of the clock that showed it.
#[derive(Debug, Clone, Copy, PartialEq, Eq)]
pub struct Timestamp {
    seconds: i64,
    nanoseconds: u32,
    offset: i32,
}

impl Timestamp {
    #[verifier::type_invariant]
    spec fn well_formed(self) -> bool {
        is_date_time(self.seconds, self.nanoseconds, self.offset)
    }

    /// Seconds and nanoseconds since the start of 1970, and the offset from UTC in seconds.
    pub closed spec fn parts(self) -> (i64, u32, i32) {
        (self.seconds, self.nanoseconds, self.offset)
    }

    /// The text that shows the point in time.
    pub open spec fn shown(self) -> Seq<char> {
        date_time_text(self.parts().0, self.parts().1, self.parts().2)
    }

    /// The point in time that the numbers stand for, where they stand for one.
    pub fn new(seconds: i64, nanoseconds: u32, offset: i32) -> (timestamp: Option<Timestamp>)
        ensures
            match timestamp {
                Some(timestamp) => {
                    &&& is_date_time(seconds, nanoseconds, offset)
                    &&& timestamp.parts() == (seconds, nanoseconds, offset)
                },
                None => !is_date_time(seconds, nanoseconds, offset),
            },
    {
        if seconds < MIN_SECONDS || seconds > MAX_SECONDS {
            return None;
        }
        let into_minute: i64 = (seconds - MIN_SECONDS) % 60;
        assert(into_minute == seconds as int % 60) by {
            assert(MIN_SECONDS as int % 60 == 0);
        }
        if nanoseconds >= 2_000_000_000 || (nanoseconds >= 1_000_000_000 && into_minute != 59)
            || offset <= -86_400 || offset >= 86_400 {
            return None;
        }
        Some(Timestamp { seconds, nanoseconds, offset })
    }

    /// Seconds since the start of 1970.
    pub fn seconds(&self) -> (seconds: i64)
        ensures
            seconds == self.parts().0,
    {
        self.seconds
    }

    /// Nanoseconds into the second.
    pub fn nanoseconds(&self) -> (nanoseconds: u32)
        ensures
            nanoseconds == self.parts().1,
    {
        self.nanoseconds
    }

    /// Seconds that the clock runs ahead of UTC.
    pub fn offset(&self) -> (offset: i32)
        ensures
            offset == self.parts().2,
    {
        self.offset
    }

    /// The point in time in a header such as `Last-Modified`.
    pub fn from_rfc2822(text: &str) -> (timestamp: Option<Timestamp>)
        ensures
            match timestamp {
                Some(timestamp) => rfc2822_date_time(text@) == Some(timestamp.parts()),
                None => rfc2822_date_time(text@) is None,
            },
    {
        match parse_rfc2822(text) {
            Some((seconds, nanoseconds, offset)) => Some(
                Timestamp { seconds, nanoseconds, offset },
            ),
            None => None,
        }
    }

    /// The text that shows the point in time.
    pub fn show(&self) -> (text: String)
        ensures
            text@ == self.shown(),
    {
        proof {
            use_type_invariant(self);
        }
        show_date_time(self.seconds, self.nanoseconds, self.offset)
    }
}

/// Points in time are told apart by their numbers alone.
pub proof fn law_parts_tell_apart(a: Timestamp, b: Timestamp)
    ensures
        a.parts() == b.parts() <==> a == b,
{
}

/// Calls `chrono::DateTime::parse_from_rfc2822`. The numbers are those of the point in time that
/// it reads, as `rfc2822_date_time` names it; there are none where the parser reports an error. A
/// point in time lies within the range of `chrono`, a leap second ends a minute, and an offset is
/// shorter than a day.
#[verifier::external_body]
fn parse_rfc2822(text: &str) -> (parts: Option<(i64, u32, i32)>)
    ensures
        parts == rfc2822_date_time(text@),
        parts matches Some((seconds, nanoseconds, offset)) ==> is_date_time(
            seconds,
            nanoseconds,
            offset,
        ),
{
    let time = chrono::DateTime::parse_from_rfc2822(text).ok()?;
    Some((time.timestamp(), time.timestamp_subsec_nanos(), time.offset().local_minus_utc()))
}

/// Calls `to_string` on the `chrono::DateTime<FixedOffset>` that the numbers stand for. The text
/// is the one that `date_time_text` names. Numbers within the limits always stand for a point in
/// time.
#[verifier::external_body]
fn show_date_time(seconds: i64, nanoseconds: u32, offset: i32) -> (text: String)
    requires
        is_date_time(seconds, nanoseconds, offset),
    ensures
        text@ == date_time_text(seconds, nanoseconds, offset),
{
    let time = chrono::DateTime::from_timestamp(seconds, nanoseconds).unwrap();
    time.with_timezone(&chrono::FixedOffset::east_opt(offset).unwrap()).to_string()
}

} // verus!
