//! When a recurring backup is next due.
//!
//! A schedule names a time of day and a frequency. The calculator works on
//! local calendar fields: it picks the local dates on which the next run can
//! fall, asks the time zone for the instant of each, and keeps the first that
//! is still ahead.

use crate::calendar::{days_in_month, CalendarDate, Hms, LocalMoment, Moment, TimeOfDay, Ymd, MAX_YEAR};
use crate::system::{clock_fields_of, local_instant, parse_clock_fields, read_clock, ClockReading};
use vstd::prelude::*;

verus! {

/// How often a schedule fires.
#[derive(Clone, Copy, Debug, PartialEq, Eq, Structural)]
pub enum ScheduleFrequency {
    /// Every day.
    Daily,
    /// Every week on this day: 0 for Sunday up to 6 for Saturday.
    Weekly(u8),
    /// Every month on this day of the month, 1 to 31.
    Monthly(u8),
}

/// A recurring backup: whether it is active, how often and at what local
/// time it fires, and when it last ran and is next due.
#[derive(Clone, Debug)]
pub struct Schedule {
    pub enabled: bool,
    pub frequency: ScheduleFrequency,
    /// Time of day as `HH:MM` on a 24-hour clock, in the local time zone.
    pub time: String,
    /// Start of the most recent recorded run, in milliseconds since the
    /// start of 1970 in UTC.
    pub last_run: Option<i64>,
    /// The next due instant, in milliseconds since the start of 1970 in UTC.
    pub next_run: Option<i64>,
}

/// Why a schedule cannot be used.
#[derive(Clone, Copy, Debug, PartialEq, Eq, Structural)]
pub enum ScheduleError {
    /// The time of day is not a time in the form `HH:MM`.
    InvalidTime,
    /// The day of the week is above 6.
    InvalidWeekday,
    /// The day of the month is outside 1 to 31.
    InvalidDayOfMonth,
}

/// What is said of each error.
pub open spec fn error_text(error: ScheduleError) -> Seq<char> {
    match error {
        ScheduleError::InvalidTime => "Invalid time format"@,
        ScheduleError::InvalidWeekday => "Invalid day of the week"@,
        ScheduleError::InvalidDayOfMonth => "Invalid day of the month"@,
    }
}

impl ScheduleError {
    /// What is said of this error.
    pub fn message(&self) -> (text: String)
        ensures
            text@ == error_text(*self),
    {
        match self {
            ScheduleError::InvalidTime => String::from_str("Invalid time format"),
            ScheduleError::InvalidWeekday => String::from_str("Invalid day of the week"),
            ScheduleError::InvalidDayOfMonth => String::from_str("Invalid day of the month"),
        }
    }
}

/// The local dates on which the next run can fall.
///
/// `first` is a date whose occurrence counts only while it is still ahead of
/// now. `fallback` is the date taken when `first` is absent or has passed.
pub struct Candidates {
    pub first: Option<Ymd>,
    pub fallback: Option<Ymd>,
}

/// The candidates of a schedule together with its time of day.
pub struct Outlook {
    pub candidates: Candidates,
    pub time: Hms,
}

/// The format handed to the time parser for a schedule's time of day.
pub open spec fn time_format() -> Seq<char> {
    "%H:%M"@
}

/// `date`, if the calendar has it.
pub open spec fn if_in_calendar(date: Ymd) -> Option<Ymd> {
    if date.exists_in_calendar() {
        Some(date)
    } else {
        None
    }
}

/// Days from weekday `current` to the next weekday `target`, both counted
/// from Sunday; 0 when they are the same day.
pub open spec fn days_until(target: int, current: int) -> int {
    (target - current + 7) % 7
}

/// The dates on which a schedule of `frequency` can next fire, seen from
/// `today`, a day of the week `weekday`.
///
/// Daily: today, else tomorrow. Weekly: today if it is the wanted weekday,
/// else seven days on; on another weekday only the next wanted weekday.
/// Monthly: the wanted day of this month if it is not behind today and the
/// month has it, else the wanted day of next month, if that month has it.
pub open spec fn candidates(frequency: ScheduleFrequency, today: Ymd, weekday: int) -> Candidates {
    match frequency {
        ScheduleFrequency::Daily => Candidates {
            first: Some(today),
            fallback: if_in_calendar(today.plus_days(1)),
        },
        ScheduleFrequency::Weekly(target) => {
            let wait = days_until(target as int, weekday);
            if wait == 0 {
                Candidates { first: Some(today), fallback: if_in_calendar(today.plus_days(7)) }
            } else {
                Candidates { first: None, fallback: if_in_calendar(today.plus_days(wait as nat)) }
            }
        },
        ScheduleFrequency::Monthly(day) => Candidates {
            first: if day >= today.day {
                if_in_calendar(today.on_day(day as int))
            } else {
                None
            },
            fallback: if_in_calendar(today.on_day_of_next_month(day as int)),
        },
    }
}

/// The error in a frequency's day, if it has one.
pub open spec fn frequency_error(frequency: ScheduleFrequency) -> Option<ScheduleError> {
    match frequency {
        ScheduleFrequency::Daily => None,
        ScheduleFrequency::Weekly(day) => if day > 6 {
            Some(ScheduleError::InvalidWeekday)
        } else {
            None
        },
        ScheduleFrequency::Monthly(day) => if day < 1 || day > 31 {
            Some(ScheduleError::InvalidDayOfMonth)
        } else {
            None
        },
    }
}

/// What the calculator looks at for `schedule` at the local moment `now`.
///
/// A disabled schedule has no outlook, whatever its other fields hold. An
/// enabled one is refused if its time of day does not parse, then if its
/// frequency names an impossible day.
pub open spec fn outlook(schedule: Schedule, now: Moment) -> Result<Option<Outlook>, ScheduleError> {
    if !schedule.enabled {
        Ok(None)
    } else {
        match clock_fields_of(schedule.time@, time_format()) {
            None => Err(ScheduleError::InvalidTime),
            Some(fields) => match frequency_error(schedule.frequency) {
                Some(error) => Err(error),
                None => Ok(
                    Some(
                        Outlook {
                            candidates: candidates(schedule.frequency, now.date, now.weekday),
                            time: Hms {
                                hour: fields.0 as int,
                                minute: fields.1 as int,
                                second: fields.2 as int,
                            },
                        },
                    ),
                ),
            },
        }
    }
}

/// The next run, given the instants that the time zone assigns to the two
/// candidates.
///
/// The first candidate is taken if its instant is strictly after `now`. If
/// its instant is not after `now`, or if there is no first candidate, the
/// fallback's instant is taken as it is. A first candidate that the time
/// zone maps to no single instant yields nothing, and so does a missing
/// fallback.
pub open spec fn pick(
    candidates: Candidates,
    first_at: Option<i64>,
    fallback_at: Option<i64>,
    now: i64,
) -> Option<i64> {
    let later = if candidates.fallback is Some {
        fallback_at
    } else {
        None
    };
    match candidates.first {
        None => later,
        Some(_) => match first_at {
            None => None,
            Some(at) => if at > now {
                Some(at)
            } else {
                later
            },
        },
    }
}

/// `next` is what the calculator may return for `schedule` at the local
/// moment `now` and the instant `now_utc`: the error or absence that the
/// outlook dictates, or the pick among the candidates for some answer of the
/// time zone.
pub open spec fn is_next_run(
    schedule: Schedule,
    now: Moment,
    now_utc: i64,
    next: Result<Option<i64>, ScheduleError>,
) -> bool {
    match outlook(schedule, now) {
        Err(error) => next == Err::<Option<i64>, ScheduleError>(error),
        Ok(None) => next == Ok::<Option<i64>, ScheduleError>(None),
        Ok(Some(plan)) => exists|first_at: Option<i64>, fallback_at: Option<i64>|
            next == Ok::<Option<i64>, ScheduleError>(
                #[trigger] pick(plan.candidates, first_at, fallback_at, now_utc),
            ),
    }
}

/// A daily schedule fires today if the time zone places today's occurrence
/// strictly after now, and tomorrow otherwise.
pub proof fn law_daily_rolls_over(
    today: Ymd,
    weekday: int,
    first_at: i64,
    fallback_at: Option<i64>,
    now_utc: i64,
)
    requires
        today.exists_in_calendar(),
        today.next_day().exists_in_calendar(),
    ensures
        candidates(ScheduleFrequency::Daily, today, weekday) == (Candidates {
            first: Some(today),
            fallback: Some(today.next_day()),
        }),
        pick(
            candidates(ScheduleFrequency::Daily, today, weekday),
            Some(first_at),
            fallback_at,
            now_utc,
        ) == if first_at > now_utc {
            Some(first_at)
        } else {
            fallback_at
        },
{
    assert(today.plus_days(1) == today.next_day()) by {
        reveal_with_fuel(Ymd::plus_days, 2);
    }
}

/// On its own weekday a weekly schedule fires today if the time zone places
/// today's occurrence strictly after now, and seven days on otherwise. On any
/// other weekday it fires on the next day of that name, which is less than
/// seven days on.
pub proof fn law_weekly_waits_for_its_day(
    target: u8,
    today: Ymd,
    weekday: int,
    first_at: i64,
    fallback_at: Option<i64>,
    now_utc: i64,
)
    requires
        target <= 6,
        0 <= weekday < 7,
        today.exists_in_calendar(),
    ensures
        target == weekday ==> candidates(ScheduleFrequency::Weekly(target), today, weekday) == (
        Candidates { first: Some(today), fallback: if_in_calendar(today.plus_days(7)) }),
        target == weekday && today.plus_days(7).exists_in_calendar() ==> pick(
            candidates(ScheduleFrequency::Weekly(target), today, weekday),
            Some(first_at),
            fallback_at,
            now_utc,
        ) == if first_at > now_utc {
            Some(first_at)
        } else {
            fallback_at
        },
        target != weekday ==> {
            &&& 0 < days_until(target as int, weekday) < 7
            &&& (weekday + days_until(target as int, weekday)) % 7 == target
            &&& candidates(ScheduleFrequency::Weekly(target), today, weekday) == (Candidates {
                first: None,
                fallback: if_in_calendar(
                    today.plus_days(days_until(target as int, weekday) as nat),
                ),
            })
        },
{
}

/// A monthly schedule whose day this month lacks looks to next month only,
/// and has no date at all where next month lacks the day too. So the 31st,
/// asked for in a month of 30 days, falls on the 31st of the month after.
pub proof fn law_monthly_skips_a_short_month(
    day: u8,
    today: Ymd,
    weekday: int,
    first_at: Option<i64>,
    fallback_at: Option<i64>,
    now_utc: i64,
)
    requires
        1 <= day <= 31,
        today.exists_in_calendar(),
        day > days_in_month(today.year, today.month),
    ensures
        candidates(ScheduleFrequency::Monthly(day), today, weekday).first is None,
        today.on_day_of_next_month(day as int).exists_in_calendar() ==> pick(
            candidates(ScheduleFrequency::Monthly(day), today, weekday),
            first_at,
            fallback_at,
            now_utc,
        ) == fallback_at,
        !today.on_day_of_next_month(day as int).exists_in_calendar() ==> pick(
            candidates(ScheduleFrequency::Monthly(day), today, weekday),
            first_at,
            fallback_at,
            now_utc,
        ) is None,
        day == 31 && days_in_month(today.year, today.month) == 30 && today.year < MAX_YEAR
            ==> today.on_day_of_next_month(31).exists_in_calendar(),
{
}

/// A disabled schedule has no next run, whatever its frequency and its time
/// of day hold, at every moment.
pub proof fn law_disabled_schedule_has_no_next_run(
    schedule: Schedule,
    now: Moment,
    now_utc: i64,
    next: Result<Option<i64>, ScheduleError>,
)
    requires
        !schedule.enabled,
        is_next_run(schedule, now, now_utc, next),
    ensures
        next == Ok::<Option<i64>, ScheduleError>(None),
{
}

/// The next run lies strictly after now, provided the time zone places the
/// fallback date after now.
pub proof fn law_next_run_lies_ahead(
    candidates: Candidates,
    first_at: Option<i64>,
    fallback_at: Option<i64>,
    now_utc: i64,
)
    requires
        fallback_at matches Some(at) ==> at > now_utc,
    ensures
        pick(candidates, first_at, fallback_at, now_utc) matches Some(at) ==> at > now_utc,
{
}

/// The dates and the time of day that the calculator has settled on.
#[derive(Clone, Copy, Debug)]
pub struct Plan {
    pub first: Option<CalendarDate>,
    pub fallback: Option<CalendarDate>,
    pub time: TimeOfDay,
}

/// The model of an optional date.
pub open spec fn date_model(date: Option<CalendarDate>) -> Option<Ymd> {
    match date {
        Some(d) => Some(d@),
        None => None,
    }
}

impl View for Plan {
    type V = Outlook;

    open spec fn view(&self) -> Outlook {
        Outlook {
            candidates: Candidates {
                first: date_model(self.first),
                fallback: date_model(self.fallback),
            },
            time: self.time@,
        }
    }
}

/// The model of an optional plan.
pub open spec fn plan_model(plan: Option<Plan>) -> Option<Outlook> {
    match plan {
        Some(p) => Some(p@),
        None => None,
    }
}

/// The model of the outcome of planning.
pub open spec fn planning_model(planned: Result<Option<Plan>, ScheduleError>) -> Result<
    Option<Outlook>,
    ScheduleError,
> {
    match planned {
        Ok(plan) => Ok(plan_model(plan)),
        Err(error) => Err(error),
    }
}

/// Checks the day that a frequency names.
pub fn check_frequency(frequency: ScheduleFrequency) -> (checked: Result<(), ScheduleError>)
    ensures
        checked is Ok <==> frequency_error(frequency) is None,
        checked matches Err(error) ==> frequency_error(frequency) == Some(error),
{
    match frequency {
        ScheduleFrequency::Daily => Ok(()),
        ScheduleFrequency::Weekly(day) => if day > 6 {
            Err(ScheduleError::InvalidWeekday)
        } else {
            Ok(())
        },
        ScheduleFrequency::Monthly(day) => if day < 1 || day > 31 {
            Err(ScheduleError::InvalidDayOfMonth)
        } else {
            Ok(())
        },
    }
}

/// Parses a schedule's time of day.
pub fn parse_schedule_time(time: &str) -> (parsed: Result<TimeOfDay, ScheduleError>)
    ensures
        match clock_fields_of(time@, time_format()) {
            None => parsed == Err::<TimeOfDay, ScheduleError>(ScheduleError::InvalidTime),
            Some(fields) => parsed matches Ok(t) && t@ == (Hms {
                hour: fields.0 as int,
                minute: fields.1 as int,
                second: fields.2 as int,
            }),
        },
{
    match parse_clock_fields(time, "%H:%M") {
        Err(_) => Err(ScheduleError::InvalidTime),
        Ok(fields) => match TimeOfDay::new(fields.0, fields.1, fields.2) {
            Some(t) => Ok(t),
            None => Err(ScheduleError::InvalidTime),
        },
    }
}

/// The local dates on which a schedule of `frequency` can next fire.
///
/// A weekday above 6 is counted as the weekday it is congruent to: callers
/// that want it refused check the frequency first.
pub fn candidate_dates(frequency: ScheduleFrequency, now: &LocalMoment) -> (dates: (
    Option<CalendarDate>,
    Option<CalendarDate>,
))
    ensures
        date_model(dates.0) == candidates(frequency, now@.date, now@.weekday).first,
        date_model(dates.1) == candidates(frequency, now@.date, now@.weekday).fallback,
{
    let today = now.date();
    match frequency {
        ScheduleFrequency::Daily => (Some(today), today.plus_days(1)),
        ScheduleFrequency::Weekly(target) => {
            let weekday: u32 = now.weekday();
            let wait: u32 = (target as u32 + 7 - weekday) % 7;
            if wait == 0 {
                (Some(today), today.plus_days(7))
            } else {
                (None, today.plus_days(wait))
            }
        },
        ScheduleFrequency::Monthly(day) => {
            let first = if day as u32 >= today.day() {
                today.on_day(day as u32)
            } else {
                None
            };
            (first, today.on_day_of_next_month(day as u32))
        },
    }
}

/// Settles what the calculator looks at for `schedule` at the local moment
/// `now`: nothing for a disabled schedule, an error for an unusable one,
/// else the candidate dates and the time of day.
pub fn plan_next_run(schedule: &Schedule, now: &LocalMoment) -> (planned: Result<
    Option<Plan>,
    ScheduleError,
>)
    ensures
        planning_model(planned) == outlook(*schedule, now@),
{
    if !schedule.enabled {
        return Ok(None);
    }
    let time = match parse_schedule_time(schedule.time.as_str()) {
        Ok(t) => t,
        Err(error) => {
            return Err(error);
        },
    };
    match check_frequency(schedule.frequency) {
        Ok(()) => {},
        Err(error) => {
            return Err(error);
        },
    }
    let dates = candidate_dates(schedule.frequency, now);
    Ok(Some(Plan { first: dates.0, fallback: dates.1, time }))
}

/// Chooses the next run among the candidates of `plan`, given the instant
/// that the time zone assigns to each.
pub fn pick_next_run(
    plan: &Plan,
    first_at: Option<i64>,
    fallback_at: Option<i64>,
    now_utc: i64,
) -> (next: Option<i64>)
    ensures
        next == pick(plan@.candidates, first_at, fallback_at, now_utc),
{
    let later = if plan.fallback.is_some() {
        fallback_at
    } else {
        None
    };
    match plan.first {
        None => later,
        Some(_) => match first_at {
            None => None,
            Some(at) => if at > now_utc {
                Some(at)
            } else {
                later
            },
        },
    }
}

/// The instant of `time` on `date` in the local time zone, if there is a
/// date.
fn instant_on(date: Option<CalendarDate>, time: &TimeOfDay) -> (at: Option<i64>)
    ensures
        date is None ==> at is None,
{
    match date {
        Some(d) => local_instant(d.year(), d.month(), d.day(), time.hour(), time.minute(), time.second()),
        None => None,
    }
}

/// The next instant at which `schedule` is due, seen from the local moment
/// `now_local`, which is the instant `now_utc`.
///
/// `Ok(None)` for a disabled schedule, and for an enabled one where no next
/// run can be named: the wanted day of the month exists neither this month
/// nor next, or the time zone has no single instant for the local time.
pub fn compute_next_run(schedule: &Schedule, now_local: &LocalMoment, now_utc: i64) -> (next: Result<
    Option<i64>,
    ScheduleError,
>)
    ensures
        is_next_run(*schedule, now_local@, now_utc, next),
        !schedule.enabled ==> next == Ok::<Option<i64>, ScheduleError>(None),
{
    match plan_next_run(schedule, now_local) {
        Err(error) => Err(error),
        Ok(None) => Ok(None),
        Ok(Some(plan)) => {
            let first_at = instant_on(plan.first, &plan.time);
            let fallback_at = instant_on(plan.fallback, &plan.time);
            let next = pick_next_run(&plan, first_at, fallback_at, now_utc);
            Ok(next)
        },
    }
}

/// The local moment that a clock reading shows, if its fields are
/// plausible.
pub fn moment_of(reading: &ClockReading) -> (moment: Option<LocalMoment>)
    ensures
        moment is Some <==> reading.is_plausible(),
        moment matches Some(m) ==> m@ == (Moment {
            date: Ymd {
                year: reading.year as int,
                month: reading.month as int,
                day: reading.day as int,
            },
            time: Hms {
                hour: reading.hour as int,
                minute: reading.minute as int,
                second: reading.second as int,
            },
            weekday: reading.weekday as int,
        }),
{
    let date = match CalendarDate::new(reading.year, reading.month, reading.day) {
        Some(d) => d,
        None => {
            return None;
        },
    };
    let time = match TimeOfDay::new(reading.hour, reading.minute, reading.second) {
        Some(t) => t,
        None => {
            return None;
        },
    };
    LocalMoment::new(date, time, reading.weekday)
}

/// The next instant at which `schedule` is due, seen from now.
///
/// Reads the system clock and calls [`compute_next_run`]. The clock and the
/// time zone decide the outcome: the contract says what holds of every
/// reading.
pub fn calculate_next_run(schedule: &Schedule) -> (next: Result<Option<i64>, ScheduleError>)
    ensures
        exists|now: Moment, now_utc: i64| now.is_valid() && #[trigger] is_next_run(*schedule, now, now_utc, next),
        !schedule.enabled ==> next == Ok::<Option<i64>, ScheduleError>(None),
{
    let reading = read_clock();
    match moment_of(&reading) {
        Some(now) => {
            compute_next_run(schedule, &now, reading.utc_millis)
        },
        None => Ok(None),
    }
}

/// What a schedule notes as its next run for an outcome of the calculator:
/// the instant, or nothing where there is none or the schedule cannot be
/// used.
pub open spec fn noted(next: Result<Option<i64>, ScheduleError>) -> Option<i64> {
    match next {
        Ok(at) => at,
        Err(_) => None,
    }
}

impl Schedule {
    /// Checks that the time of day can be read and that the frequency names
    /// a possible day.
    pub fn validate(&self) -> (checked: Result<(), ScheduleError>)
        ensures
            match clock_fields_of(self.time@, time_format()) {
                None => checked == Err::<(), ScheduleError>(ScheduleError::InvalidTime),
                Some(_) => match frequency_error(self.frequency) {
                    Some(error) => checked == Err::<(), ScheduleError>(error),
                    None => checked is Ok,
                },
            },
    {
        match parse_schedule_time(self.time.as_str()) {
            Ok(_) => check_frequency(self.frequency),
            Err(error) => Err(error),
        }
    }

    /// Works out when the schedule is next due, seen from the local moment
    /// `now_local`, which is the instant `now_utc`, and notes it as the next
    /// run. A schedule that cannot be used is left as it is.
    pub fn refresh(&mut self, now_local: &LocalMoment, now_utc: i64) -> (done: Result<
        (),
        ScheduleError,
    >)
        ensures
            final(self).enabled == old(self).enabled,
            final(self).frequency == old(self).frequency,
            final(self).time == old(self).time,
            final(self).last_run == old(self).last_run,
            match done {
                Ok(()) => is_next_run(
                    *old(self),
                    now_local@,
                    now_utc,
                    Ok(final(self).next_run),
                ),
                Err(error) => is_next_run(*old(self), now_local@, now_utc, Err(error))
                    && final(self).next_run == old(self).next_run,
            },
    {
        match compute_next_run(self, now_local, now_utc) {
            Ok(next) => {
                self.next_run = next;
                Ok(())
            },
            Err(error) => Err(error),
        }
    }

    /// Notes that a run started at `started_at`, and works out anew when
    /// the schedule is next due, seen from the local moment `now_local`,
    /// which is the instant `now_utc`.
    pub fn note_run(&mut self, started_at: i64, now_local: &LocalMoment, now_utc: i64)
        ensures
            final(self).enabled == old(self).enabled,
            final(self).frequency == old(self).frequency,
            final(self).time == old(self).time,
            final(self).last_run == Some(started_at),
            exists|next: Result<Option<i64>, ScheduleError>| #[trigger]
                is_next_run(*old(self), now_local@, now_utc, next) && final(self).next_run == noted(
                    next,
                ),
    {
        let next = compute_next_run(self, now_local, now_utc);
        self.last_run = Some(started_at);
        self.next_run = match next {
            Ok(at) => at,
            Err(_) => None,
        };
    }
}

} // verus!
