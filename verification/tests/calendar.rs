use chrono::Datelike;
use cloud_backup::calendar::{leap_year, month_length, CalendarDate, LocalMoment, TimeOfDay};

fn ymd(date: Option<CalendarDate>) -> Option<(i32, u32, u32)> {
    date.map(|d| (d.year(), d.month(), d.day()))
}

#[test]
fn leap_years() {
    assert!(leap_year(2024));
    assert!(!leap_year(2025));
    assert!(!leap_year(1900));
    assert!(leap_year(2000));
    assert!(leap_year(0));
    assert!(leap_year(-4));
    assert!(!leap_year(-1));
    assert!(!leap_year(-100));
    assert!(leap_year(-400));
}

#[test]
fn month_lengths() {
    let common = [31, 28, 31, 30, 31, 30, 31, 31, 30, 31, 30, 31];
    for (i, days) in common.iter().enumerate() {
        assert_eq!(month_length(2025, i as u32 + 1), *days);
    }
    assert_eq!(month_length(2024, 2), 29);
    assert_eq!(month_length(2025, 0), 0);
    assert_eq!(month_length(2025, 13), 0);
}

#[test]
fn dates_that_exist_and_dates_that_do_not() {
    assert_eq!(ymd(CalendarDate::new(2015, 3, 14)), Some((2015, 3, 14)));
    assert_eq!(ymd(CalendarDate::new(2015, 0, 14)), None);
    assert_eq!(ymd(CalendarDate::new(2015, 2, 29)), None);
    assert_eq!(ymd(CalendarDate::new(2015, 2, 0)), None);
    assert_eq!(ymd(CalendarDate::new(-4, 2, 29)), Some((-4, 2, 29)));
    assert_eq!(ymd(CalendarDate::new(2023, 4, 31)), None);
    assert_eq!(ymd(CalendarDate::new(400000, 1, 1)), None);
    assert_eq!(ymd(CalendarDate::new(-400000, 1, 1)), None);
    assert_eq!(ymd(CalendarDate::new(262142, 12, 31)), Some((262142, 12, 31)));
    assert_eq!(ymd(CalendarDate::new(262143, 1, 1)), None);
    assert_eq!(ymd(CalendarDate::new(-262143, 1, 1)), Some((-262143, 1, 1)));
    assert_eq!(ymd(CalendarDate::new(-262144, 12, 31)), None);
}

#[test]
fn dates_agree_with_chrono() {
    for year in [-5, 1899, 1900, 2000, 2023, 2024, 2100] {
        for month in 0..14 {
            for day in 0..33 {
                let ours = CalendarDate::new(year, month, day).is_some();
                let theirs = chrono::NaiveDate::from_ymd_opt(year, month, day).is_some();
                assert_eq!(ours, theirs, "{year}-{month}-{day}");
            }
        }
    }
}

#[test]
fn the_day_after() {
    let d = CalendarDate::new(2025, 1, 30).unwrap();
    assert_eq!(ymd(d.succ()), Some((2025, 1, 31)));
    let d = CalendarDate::new(2025, 1, 31).unwrap();
    assert_eq!(ymd(d.succ()), Some((2025, 2, 1)));
    let d = CalendarDate::new(2025, 2, 28).unwrap();
    assert_eq!(ymd(d.succ()), Some((2025, 3, 1)));
    let d = CalendarDate::new(2024, 2, 28).unwrap();
    assert_eq!(ymd(d.succ()), Some((2024, 2, 29)));
    let d = CalendarDate::new(2025, 12, 31).unwrap();
    assert_eq!(ymd(d.succ()), Some((2026, 1, 1)));
    let d = CalendarDate::new(262142, 12, 31).unwrap();
    assert_eq!(ymd(d.succ()), None);
}

#[test]
fn days_later_agree_with_chrono() {
    let start = CalendarDate::new(2023, 12, 25).unwrap();
    let theirs = chrono::NaiveDate::from_ymd_opt(2023, 12, 25).unwrap();
    for days in [0u32, 1, 6, 7, 8, 31, 66, 67, 365, 366, 800] {
        let later = start.plus_days(days).unwrap();
        let expected = theirs + chrono::Duration::days(days as i64);
        assert_eq!((later.year(), later.month(), later.day()), (expected.year(), expected.month(), expected.day()));
    }
    let end = CalendarDate::new(262142, 12, 30).unwrap();
    assert_eq!(ymd(end.plus_days(1)), Some((262142, 12, 31)));
    assert_eq!(ymd(end.plus_days(2)), None);
    assert_eq!(ymd(end.plus_days(9)), None);
}

#[test]
fn days_of_this_month_and_the_next() {
    let d = CalendarDate::new(2025, 4, 10).unwrap();
    assert_eq!(ymd(d.on_day(30)), Some((2025, 4, 30)));
    assert_eq!(ymd(d.on_day(31)), None);
    assert_eq!(ymd(d.on_day(0)), None);
    assert_eq!(ymd(d.on_day_of_next_month(31)), Some((2025, 5, 31)));
    let d = CalendarDate::new(2025, 1, 31).unwrap();
    assert_eq!(ymd(d.on_day_of_next_month(28)), Some((2025, 2, 28)));
    assert_eq!(ymd(d.on_day_of_next_month(29)), None);
    let d = CalendarDate::new(2025, 12, 5).unwrap();
    assert_eq!(ymd(d.on_day_of_next_month(5)), Some((2026, 1, 5)));
    let d = CalendarDate::new(262142, 12, 5).unwrap();
    assert_eq!(ymd(d.on_day_of_next_month(5)), None);
}

#[test]
fn times_and_moments() {
    let t = TimeOfDay::new(23, 59, 59).unwrap();
    assert_eq!((t.hour(), t.minute(), t.second()), (23, 59, 59));
    assert!(TimeOfDay::new(24, 0, 0).is_none());
    assert!(TimeOfDay::new(0, 60, 0).is_none());
    assert!(TimeOfDay::new(0, 0, 60).is_none());
    let d = CalendarDate::new(2025, 6, 11).unwrap();
    let m = LocalMoment::new(d, t, 3).unwrap();
    assert_eq!(m.weekday(), 3);
    assert_eq!(m.date().day(), 11);
    assert_eq!(m.time().hour(), 23);
    assert!(LocalMoment::new(d, t, 7).is_none());
}
