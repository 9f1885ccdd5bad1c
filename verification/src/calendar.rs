//! Calendar days: parsing the day a filter asks for, and finding the local
//! day on which a timestamp falls.

use chrono::{Datelike, Local, NaiveDate, TimeZone};
use vstd::prelude::*;

verus! {

/// A day of the proleptic Gregorian calendar.
#[derive(Clone, Copy, Debug, PartialEq, Eq, Structural)]
pub struct CalendarDay {
    pub year: i32,
    pub month: u32,
    pub day: u32,
}

/// Seconds since the epoch, on either side, for which the local day can
/// always be computed (about a quarter of a million years each way).
pub const MAX_TIMESTAMP_SECS: i64 = 8_000_000_000_000i64;

/// Whether an instant, in seconds since the epoch, lies in the span for
/// which the local day can be computed.
pub open spec fn in_calendar(secs: i64) -> bool {
    -MAX_TIMESTAMP_SECS <= secs <= MAX_TIMESTAMP_SECS
}

/// The day that `text` denotes when read as `YYYY-MM-DD` by the date
/// parser, or `None` where the parser rejects it.
pub uninterp spec fn parsed_day(text: Seq<char>) -> Option<CalendarDay>;

/// `NaiveDate::parse_from_str` with the format `%Y-%m-%d`. The result
/// depends on the text alone.
#[verifier::external_body]
pub(crate) fn parse_day(text: &str) -> (r: Option<CalendarDay>)
    ensures
        r == parsed_day(text@),
{
    NaiveDate::parse_from_str(text, "%Y-%m-%d").ok().map(
        |d| CalendarDay { year: d.year(), month: d.month(), day: d.day() },
    )
}

/// `Local.timestamp_opt` followed by `DateTime::date_naive`: the calendar
/// day of the instant in the machine's time zone. The zone comes from the
/// environment, so nothing ties the result to the arguments; `None` when the
/// instant has no single local reading. The bound on `secs` keeps the local
/// time inside the range that the date library can represent.
#[verifier::external_body]
pub(crate) fn local_day(secs: i64, nanos: u32) -> (r: Option<CalendarDay>)
    requires
        in_calendar(secs),
{
    Local.timestamp_opt(secs, nanos).single().map(|t| t.date_naive()).map(
        |d| CalendarDay { year: d.year(), month: d.month(), day: d.day() },
    )
}

} // verus!
