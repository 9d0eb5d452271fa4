//! Calendar timestamps, read and written by chrono.

use std::fmt::Write;
use vstd::prelude::*;

verus! {

/// The layout of the time token that closes an activity line: date, a
/// hyphen, time of day, a dot and the fraction of the second.
pub const APPLE_FORMAT: &'static str = "%Y%m%d-%H:%M:%S.%f";

/// A date and time of day without a time zone, held field by field.
///
/// The fields are the ones chrono reports for a `NaiveDateTime`; a leap
/// second is second 59 with a nanosecond count of one billion or more.
#[derive(Clone, Copy, Debug, PartialEq, Eq, Structural)]
pub struct Timestamp {
    pub year: i32,
    pub month: u32,
    pub day: u32,
    pub hour: u32,
    pub minute: u32,
    pub second: u32,
    pub nanosecond: u32,
}

/// What chrono's `NaiveDateTime::parse_from_str` makes of `text` under
/// `format`: the fields of the parsed value, or `None` where it reports an
/// error.
pub uninterp spec fn parsed_time(text: Seq<char>, format: Seq<char>) -> Option<Timestamp>;

/// What chrono writes for `time` under `format`: the text that
/// `NaiveDateTime::format` displays, or `None` where the fields name no date
/// and time that chrono can hold or the display reports an error.
pub uninterp spec fn formatted_time(time: Timestamp, format: Seq<char>) -> Option<Seq<char>>;

/// Calls chrono's `NaiveDateTime::parse_from_str` and copies the fields of
/// the value it returns. Nothing is proved of chrono's parser: the result is
/// only given its name, `parsed_time`.
#[verifier::external_body]
pub(crate) fn parse_time(text: &str, format: &str) -> (r: Option<Timestamp>)
    ensures
        r == parsed_time(text@, format@),
{
    match chrono::NaiveDateTime::parse_from_str(text, format) {
        Ok(t) => Some(
            Timestamp {
                year: chrono::Datelike::year(&t),
                month: chrono::Datelike::month(&t),
                day: chrono::Datelike::day(&t),
                hour: chrono::Timelike::hour(&t),
                minute: chrono::Timelike::minute(&t),
                second: chrono::Timelike::second(&t),
                nanosecond: chrono::Timelike::nanosecond(&t),
            },
        ),
        Err(_) => None,
    }
}

/// Rebuilds chrono's value with `NaiveDate::from_ymd_opt` and
/// `NaiveDate::and_hms_nano_opt` and displays `NaiveDateTime::format` of it.
/// Nothing is proved of chrono's formatter: the result is only given its
/// name, `formatted_time`.
#[verifier::external_body]
pub(crate) fn format_time(time: &Timestamp, format: &str) -> (r: Option<String>)
    ensures
        r.deep_view() == formatted_time(*time, format@),
{
    let date = chrono::NaiveDate::from_ymd_opt(time.year, time.month, time.day)?;
    let full = date.and_hms_nano_opt(time.hour, time.minute, time.second, time.nanosecond)?;
    let mut text = String::new();
    match write!(text, "{}", full.format(format)) {
        Ok(()) => Some(text),
        Err(_) => None,
    }
}

/// Reads the clock through chrono's `Local::now` and takes the local date
/// and time with `DateTime::naive_local`. The reading differs from call to
/// call, so nothing is stated of it. Chrono panics where the system's clock
/// stands before 1970 or the local time is outside the years it can hold.
#[verifier::external_body]
pub(crate) fn local_now() -> Timestamp {
    let t = chrono::Local::now().naive_local();
    Timestamp {
        year: chrono::Datelike::year(&t),
        month: chrono::Datelike::month(&t),
        day: chrono::Datelike::day(&t),
        hour: chrono::Timelike::hour(&t),
        minute: chrono::Timelike::minute(&t),
        second: chrono::Timelike::second(&t),
        nanosecond: chrono::Timelike::nanosecond(&t),
    }
}

} // verus!
