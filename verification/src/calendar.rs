//! Dates and wall-clock times of the proleptic Gregorian calendar, held as
//! plain integers.
//!
//! Everything here is arithmetic on local calendar fields. No time zone is
//! involved: turning a local date and time into an instant is the business of
//! the system's time zone database.

use vstd::prelude::*;

verus! {

/// The first year a [`CalendarDate`] can hold.
pub const MIN_YEAR: i32 = -262143;

/// The last year a [`CalendarDate`] can hold.
pub const MAX_YEAR: i32 = 262142;

/// A calendar date as mathematical integers: the model of [`CalendarDate`].
pub struct Ymd {
    pub year: int,
    pub month: int,
    pub day: int,
}

/// Every fourth year is a leap year, except the centuries not divisible by 400.
pub open spec fn is_leap_year(year: int) -> bool {
    year % 4 == 0 && (year % 100 != 0 || year % 400 == 0)
}

/// Number of days of `month` in `year`; 0 for a month outside 1..=12.
pub open spec fn days_in_month(year: int, month: int) -> int {
    if month == 2 {
        if is_leap_year(year) {
            29
        } else {
            28
        }
    } else if month == 4 || month == 6 || month == 9 || month == 11 {
        30
    } else if 1 <= month <= 12 {
        31
    } else {
        0
    }
}

impl Ymd {
    /// The date exists in the calendar and its year is in the supported range.
    pub open spec fn exists_in_calendar(self) -> bool {
        &&& MIN_YEAR <= self.year <= MAX_YEAR
        &&& 1 <= self.month <= 12
        &&& 1 <= self.day <= days_in_month(self.year, self.month)
    }

    /// The day after `self`. Within a month the day advances; at a month's
    /// end the month does; at the year's end the year does.
    pub open spec fn next_day(self) -> Ymd {
        if self.day < days_in_month(self.year, self.month) {
            Ymd { year: self.year, month: self.month, day: self.day + 1 }
        } else if self.month < 12 {
            Ymd { year: self.year, month: self.month + 1, day: 1 }
        } else {
            Ymd { year: self.year + 1, month: 1, day: 1 }
        }
    }

    /// The date `n` days after `self`.
    pub open spec fn plus_days(self, n: nat) -> Ymd
        decreases n,
    {
        if n == 0 {
            self
        } else {
            self.next_day().plus_days((n - 1) as nat)
        }
    }

    /// Day `day` of the same month, whether or not that month has such a day.
    pub open spec fn on_day(self, day: int) -> Ymd {
        Ymd { year: self.year, month: self.month, day }
    }

    /// Day `day` of the month that follows the month of `self`; December is
    /// followed by January of the next year.
    pub open spec fn on_day_of_next_month(self, day: int) -> Ymd {
        if self.month == 12 {
            Ymd { year: self.year + 1, month: 1, day }
        } else {
            Ymd { year: self.year, month: self.month + 1, day }
        }
    }
}

/// A wall-clock time as mathematical integers: the model of [`TimeOfDay`].
pub struct Hms {
    pub hour: int,
    pub minute: int,
    pub second: int,
}

impl Hms {
    /// The fields name a second of a 24-hour day.
    pub open spec fn on_the_clock(self) -> bool {
        0 <= self.hour < 24 && 0 <= self.minute < 60 && 0 <= self.second < 60
    }
}

/// Tells whether `year` is a leap year.
pub fn leap_year(year: i32) -> (leap: bool)
    ensures
        leap == is_leap_year(year as int),
{
    year % 4 == 0 && (year % 100 != 0 || year % 400 == 0)
}

/// Number of days of `month` in `year`; 0 for a month outside 1..=12.
pub fn month_length(year: i32, month: u32) -> (days: u32)
    ensures
        days == days_in_month(year as int, month as int),
{
    if month == 2 {
        if leap_year(year) {
            29
        } else {
            28
        }
    } else if month == 4 || month == 6 || month == 9 || month == 11 {
        30
    } else if 1 <= month && month <= 12 {
        31
    } else {
        0
    }
}

/// A date that exists in the calendar, with a year in
/// [`MIN_YEAR`]`..=`[`MAX_YEAR`].
#[derive(Clone, Copy, Debug)]
pub struct CalendarDate {
    year: i32,
    month: u32,
    day: u32,
}

impl View for CalendarDate {
    type V = Ymd;

    closed spec fn view(&self) -> Ymd {
        Ymd { year: self.year as int, month: self.month as int, day: self.day as int }
    }
}

impl CalendarDate {
    #[verifier::type_invariant]
    spec fn well_formed(self) -> bool {
        self@.exists_in_calendar()
    }

    /// The date with these fields, if the calendar has it.
    pub fn new(year: i32, month: u32, day: u32) -> (date: Option<CalendarDate>)
        ensures
            date is Some <==> (Ymd { year: year as int, month: month as int, day: day as int })
                .exists_in_calendar(),
            date matches Some(d) ==> d@ == (Ymd {
                year: year as int,
                month: month as int,
                day: day as int,
            }),
    {
        if MIN_YEAR <= year && year <= MAX_YEAR && 1 <= month && month <= 12 && 1 <= day && day
            <= month_length(year, month) {
            Some(CalendarDate { year, month, day })
        } else {
            None
        }
    }

    pub fn year(&self) -> (year: i32)
        ensures
            year == self@.year,
            self@.exists_in_calendar(),
    {
        proof {
            use_type_invariant(self);
        }
        self.year
    }

    pub fn month(&self) -> (month: u32)
        ensures
            month == self@.month,
            self@.exists_in_calendar(),
    {
        proof {
            use_type_invariant(self);
        }
        self.month
    }

    pub fn day(&self) -> (day: u32)
        ensures
            day == self@.day,
            self@.exists_in_calendar(),
    {
        proof {
            use_type_invariant(self);
        }
        self.day
    }

    /// The day after this one; `None` after the last day of [`MAX_YEAR`].
    pub fn succ(&self) -> (next: Option<CalendarDate>)
        ensures
            self@.exists_in_calendar(),
            next is Some <==> self@.next_day().exists_in_calendar(),
            next matches Some(d) ==> d@ == self@.next_day(),
    {
        proof {
            use_type_invariant(self);
        }
        if self.day < month_length(self.year, self.month) {
            Some(CalendarDate { year: self.year, month: self.month, day: self.day + 1 })
        } else if self.month < 12 {
            Some(CalendarDate { year: self.year, month: self.month + 1, day: 1 })
        } else if self.year < MAX_YEAR {
            Some(CalendarDate { year: self.year + 1, month: 1, day: 1 })
        } else {
            None
        }
    }

    /// The date `days` days after this one; `None` if that is past the last
    /// day of [`MAX_YEAR`].
    pub fn plus_days(&self, days: u32) -> (later: Option<CalendarDate>)
        ensures
            self@.exists_in_calendar(),
            later is Some <==> self@.plus_days(days as nat).exists_in_calendar(),
            later matches Some(d) ==> d@ == self@.plus_days(days as nat),
    {
        proof {
            use_type_invariant(self);
        }
        let mut current: CalendarDate = *self;
        let mut left: u32 = days;
        while left > 0
            invariant
                self@.exists_in_calendar(),
                current@.exists_in_calendar(),
                current@.plus_days(left as nat) == self@.plus_days(days as nat),
            decreases left,
        {
            match current.succ() {
                Some(next) => {
                    current = next;
                    left = left - 1;
                },
                None => {
                    proof {
                        lemma_past_the_end(current@.next_day(), (left - 1) as nat);
                    }
                    return None;
                },
            }
        }
        Some(current)
    }

    /// Day `day` of this date's month, if the month has such a day.
    pub fn on_day(&self, day: u32) -> (date: Option<CalendarDate>)
        ensures
            self@.exists_in_calendar(),
            date is Some <==> self@.on_day(day as int).exists_in_calendar(),
            date matches Some(d) ==> d@ == self@.on_day(day as int),
    {
        proof {
            use_type_invariant(self);
        }
        CalendarDate::new(self.year, self.month, day)
    }

    /// Day `day` of the month after this date's month, if that month has such
    /// a day and lies within the supported years.
    pub fn on_day_of_next_month(&self, day: u32) -> (date: Option<CalendarDate>)
        ensures
            self@.exists_in_calendar(),
            date is Some <==> self@.on_day_of_next_month(day as int).exists_in_calendar(),
            date matches Some(d) ==> d@ == self@.on_day_of_next_month(day as int),
    {
        proof {
            use_type_invariant(self);
        }
        if self.month == 12 {
            if self.year < MAX_YEAR {
                CalendarDate::new(self.year + 1, 1, day)
            } else {
                None
            }
        } else {
            CalendarDate::new(self.year, self.month + 1, day)
        }
    }
}

/// A date that is the first day of the year after [`MAX_YEAR`], or later in
/// the sense of [`Ymd::next_day`], never comes back into the supported range.
pub open spec fn past_the_end(date: Ymd) -> bool {
    date.year > MAX_YEAR && 1 <= date.month <= 12 && 1 <= date.day <= days_in_month(
        date.year,
        date.month,
    )
}

proof fn lemma_past_the_end(date: Ymd, n: nat)
    requires
        past_the_end(date),
    ensures
        past_the_end(date.plus_days(n)),
        !date.plus_days(n).exists_in_calendar(),
    decreases n,
{
    if n > 0 {
        lemma_past_the_end(date.next_day(), (n - 1) as nat);
    }
}

/// A time of day on a 24-hour clock, to the second.
#[derive(Clone, Copy, Debug)]
pub struct TimeOfDay {
    hour: u32,
    minute: u32,
    second: u32,
}

impl View for TimeOfDay {
    type V = Hms;

    closed spec fn view(&self) -> Hms {
        Hms { hour: self.hour as int, minute: self.minute as int, second: self.second as int }
    }
}

impl TimeOfDay {
    #[verifier::type_invariant]
    spec fn well_formed(self) -> bool {
        self@.on_the_clock()
    }

    /// The time with these fields, if a 24-hour clock shows it.
    pub fn new(hour: u32, minute: u32, second: u32) -> (time: Option<TimeOfDay>)
        ensures
            time is Some <==> hour < 24 && minute < 60 && second < 60,
            time matches Some(t) ==> t@ == (Hms {
                hour: hour as int,
                minute: minute as int,
                second: second as int,
            }),
    {
        if hour < 24 && minute < 60 && second < 60 {
            Some(TimeOfDay { hour, minute, second })
        } else {
            None
        }
    }

    pub fn hour(&self) -> (hour: u32)
        ensures
            hour == self@.hour,
            self@.on_the_clock(),
    {
        proof {
            use_type_invariant(self);
        }
        self.hour
    }

    pub fn minute(&self) -> (minute: u32)
        ensures
            minute == self@.minute,
            self@.on_the_clock(),
    {
        proof {
            use_type_invariant(self);
        }
        self.minute
    }

    pub fn second(&self) -> (second: u32)
        ensures
            second == self@.second,
            self@.on_the_clock(),
    {
        proof {
            use_type_invariant(self);
        }
        self.second
    }
}

/// A date, a time of day and a day of the week, as a local clock shows them
/// together: the model of [`LocalMoment`].
pub struct Moment {
    pub date: Ymd,
    pub time: Hms,
    /// Days since Sunday.
    pub weekday: int,
}

impl Moment {
    pub open spec fn is_valid(self) -> bool {
        self.date.exists_in_calendar() && self.time.on_the_clock() && 0 <= self.weekday < 7
    }
}

/// What a local clock shows at one instant: the date, the time of day and
/// the day of the week, counted from 0 for Sunday to 6 for Saturday.
///
/// The day of the week is taken as given. It is not derived from the date.
#[derive(Clone, Copy, Debug)]
pub struct LocalMoment {
    date: CalendarDate,
    time: TimeOfDay,
    weekday: u32,
}

impl View for LocalMoment {
    type V = Moment;

    closed spec fn view(&self) -> Moment {
        Moment { date: self.date@, time: self.time@, weekday: self.weekday as int }
    }
}

impl LocalMoment {
    #[verifier::type_invariant]
    spec fn well_formed(self) -> bool {
        self@.is_valid()
    }

    /// The moment with these parts, if `weekday` is below 7.
    pub fn new(date: CalendarDate, time: TimeOfDay, weekday: u32) -> (moment: Option<LocalMoment>)
        ensures
            moment is Some <==> weekday < 7,
            moment matches Some(m) ==> m@ == (Moment {
                date: date@,
                time: time@,
                weekday: weekday as int,
            }),
    {
        proof {
            use_type_invariant(&date);
            use_type_invariant(&time);
        }
        if weekday < 7 {
            Some(LocalMoment { date, time, weekday })
        } else {
            None
        }
    }

    pub fn date(&self) -> (date: CalendarDate)
        ensures
            date@ == self@.date,
            self@.is_valid(),
    {
        proof {
            use_type_invariant(self);
        }
        self.date
    }

    pub fn time(&self) -> (time: TimeOfDay)
        ensures
            time@ == self@.time,
            self@.is_valid(),
    {
        proof {
            use_type_invariant(self);
        }
        self.time
    }

    pub fn weekday(&self) -> (weekday: u32)
        ensures
            weekday == self@.weekday,
            self@.is_valid(),
    {
        proof {
            use_type_invariant(self);
        }
        self.weekday
    }
}

} // verus!
