//! What the machine tells and what `chrono` reads: the time, the local time
//! zone's view of a wall-clock time, the user's directories, fresh
//! identifiers, and times written as text.
//!
//! The functions of this module are not verified. Each states in its
//! contract what is taken on trust from the code it calls.

use crate::calendar::{Hms, Ymd};
use chrono::{DateTime, Datelike, Local, NaiveDate, NaiveTime, TimeZone, Timelike, Utc};
use uuid::Uuid;
use vstd::prelude::*;

verus! {

/// The error of chrono's parsers, carried through unread.
#[verifier::external_type_specification]
#[verifier::external_body]
pub struct ExParseError(chrono::ParseError);

/// One reading of the system clock: the instant, and the date, time and
/// weekday that the local time zone shows at that instant.
#[derive(Clone, Copy, Debug)]
pub struct ClockReading {
    pub year: i32,
    pub month: u32,
    pub day: u32,
    pub hour: u32,
    pub minute: u32,
    pub second: u32,
    /// Days since Sunday: 0 for Sunday, 6 for Saturday.
    pub weekday: u32,
    /// Milliseconds since the start of 1970 in UTC, leap seconds not counted.
    pub utc_millis: i64,
}

impl ClockReading {
    /// The fields name a date of the calendar, a time on the clock and a
    /// day of the week.
    pub open spec fn is_plausible(self) -> bool {
        &&& (Ymd { year: self.year as int, month: self.month as int, day: self.day as int })
            .exists_in_calendar()
        &&& (Hms {
            hour: self.hour as int,
            minute: self.minute as int,
            second: self.second as int,
        }).on_the_clock()
        &&& self.weekday < 7
    }
}

/// What [`chrono::NaiveTime::parse_from_str`] makes of `text` under
/// `format`: hour, minute and second, or `None` where it reports an error.
pub uninterp spec fn clock_fields_of(text: Seq<char>, format: Seq<char>) -> Option<(u32, u32, u32)>;

/// Calls [`chrono::NaiveTime::parse_from_str`] and hands out the hour, minute
/// and second of the time it parsed.
///
/// Trusted: the outcome is a function of the two strings, and the fields are
/// in the ranges that `Timelike` documents for `NaiveTime` (hour below 24,
/// minute and second below 60).
#[verifier::external_body]
pub(crate) fn parse_clock_fields(text: &str, format: &str) -> (parsed: Result<
    (u32, u32, u32),
    chrono::ParseError,
>)
    ensures
        parsed is Ok <==> clock_fields_of(text@, format@) is Some,
        parsed matches Ok(fields) ==> clock_fields_of(text@, format@) == Some(fields)
            && fields.0 < 24 && fields.1 < 60 && fields.2 < 60,
{
    NaiveTime::parse_from_str(text, format).map(|t| (t.hour(), t.minute(), t.second()))
}

/// The instant that [`chrono::DateTime::parse_from_rfc3339`] reads in
/// `text`, in milliseconds since the start of 1970 in UTC; `None` where it
/// reports an error.
pub uninterp spec fn rfc3339_instant_of(text: Seq<char>) -> Option<i64>;

/// Calls [`chrono::DateTime::parse_from_rfc3339`] and hands out the instant
/// it parsed, in milliseconds since the start of 1970 in UTC.
///
/// Trusted: the outcome is a function of the text.
#[verifier::external_body]
pub(crate) fn parse_rfc3339(text: &str) -> (parsed: Result<i64, chrono::ParseError>)
    ensures
        parsed is Ok <==> rfc3339_instant_of(text@) is Some,
        parsed matches Ok(at) ==> rfc3339_instant_of(text@) == Some(at),
{
    DateTime::parse_from_rfc3339(text).map(|at| at.timestamp_millis())
}

/// Asks the local time zone for the instant at which its clocks show the
/// given date and time, in milliseconds since the start of 1970 in UTC:
/// chrono's `Local.from_local_datetime(..).single()`.
///
/// `None` where chrono has no such date or time, where the zone shows that
/// time never (clocks were set forward over it) or twice (clocks were set
/// back over it), or where the zone cannot be read. Nothing is promised of
/// the answer: it depends on the machine's time zone settings, which may
/// change between two calls.
#[verifier::external_body]
pub(crate) fn local_instant(
    year: i32,
    month: u32,
    day: u32,
    hour: u32,
    minute: u32,
    second: u32,
) -> (at: Option<i64>) {
    let naive = NaiveDate::from_ymd_opt(year, month, day)?.and_hms_opt(hour, minute, second)?;
    Local.from_local_datetime(&naive).single().map(|found| found.timestamp_millis())
}

/// Reads the system clock once with [`chrono::Local::now`].
///
/// Trusted: the date that chrono reports exists in the proleptic Gregorian
/// calendar with a year in chrono's range, the time is on a 24-hour clock
/// with the second below 60, and `num_days_from_sunday` is below 7.
#[verifier::external_body]
pub(crate) fn read_clock() -> (reading: ClockReading)
    ensures
        reading.is_plausible(),
{
    let now = Local::now();
    ClockReading {
        year: now.year(),
        month: now.month(),
        day: now.day(),
        hour: now.hour(),
        minute: now.minute(),
        second: now.second(),
        weekday: now.weekday().num_days_from_sunday(),
        utc_millis: now.timestamp_millis(),
    }
}

/// The current instant by [`chrono::Utc::now`], in milliseconds since the
/// start of 1970 in UTC.
#[verifier::external_body]
pub(crate) fn utc_now_millis() -> (at: i64) {
    Utc::now().timestamp_millis()
}

/// A random version 4 UUID by [`uuid::Uuid::new_v4`], in its hyphenated
/// lower-case form.
#[verifier::external_body]
pub(crate) fn fresh_id() -> (id: String) {
    Uuid::new_v4().to_string()
}

/// The user's configuration directory by [`dirs::config_dir`], as text.
///
/// `None` where the operating system names none. Nothing is promised of
/// the answer: it depends on the user and on the environment.
#[verifier::external_body]
pub(crate) fn user_config_dir() -> (dir: Option<String>) {
    dirs::config_dir().map(|dir| dir.to_string_lossy().into_owned())
}

/// The user's home directory by [`dirs::home_dir`], as text.
///
/// `None` where the operating system names none. Nothing is promised of
/// the answer: it depends on the user and on the environment.
#[verifier::external_body]
pub(crate) fn user_home_dir() -> (dir: Option<String>) {
    dirs::home_dir().map(|dir| dir.to_string_lossy().into_owned())
}

} // verus!
