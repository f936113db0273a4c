use cloud_backup::log_format::{
    parse_stamp, read_byte_count, read_file_count, words, LogLine, Markers,
};

fn chars(text: &str) -> Vec<char> {
    text.chars().collect()
}

fn stamp(text: &str) -> Option<(i32, u32, u32, u32, u32, u32)> {
    parse_stamp(&chars(text)).map(|s| {
        (s.date.year(), s.date.month(), s.date.day(), s.time.hour(), s.time.minute(), s.time.second())
    })
}

fn kind(line: &str) -> LogLine {
    Markers::new().classify(&chars(line))
}

#[test]
fn stamps_as_date_prints_them() {
    assert_eq!(stamp("Wed Aug 20 00:22:05 CDT 2025"), Some((2025, 8, 20, 0, 22, 5)));
    assert_eq!(stamp("Wed Aug  6 23:59:59 UTC 2025"), Some((2025, 8, 6, 23, 59, 59)));
    assert_eq!(stamp("Thu Feb 29 12:00:00 +03 2024"), Some((2024, 2, 29, 12, 0, 0)));
    assert_eq!(stamp("  Mon Jan 1 00:00:00 GMT 1   "), Some((1, 1, 1, 0, 0, 0)));
    // The weekday is not held against the date.
    assert_eq!(stamp("Mon Aug 20 00:22:05 CDT 2025"), Some((2025, 8, 20, 0, 22, 5)));
}

#[test]
fn every_month_and_weekday_name() {
    let months = ["Jan", "Feb", "Mar", "Apr", "May", "Jun", "Jul", "Aug", "Sep", "Oct", "Nov", "Dec"];
    for (i, month) in months.iter().enumerate() {
        let text = format!("Sun {} 10 01:02:03 UTC 2025", month);
        assert_eq!(stamp(&text), Some((2025, i as u32 + 1, 10, 1, 2, 3)));
    }
    for day in ["Sun", "Mon", "Tue", "Wed", "Thu", "Fri", "Sat"] {
        let text = format!("{} Jan 10 01:02:03 UTC 2025", day);
        assert_eq!(stamp(&text), Some((2025, 1, 10, 1, 2, 3)));
    }
}

#[test]
fn stamps_that_cannot_be_read() {
    for text in [
        "",
        "Wed Aug 20 00:22:05 2025",
        "Wed Aug 20 00:22:05 CDT 2025 extra",
        "Wednesday Aug 20 00:22:05 CDT 2025",
        "Wed August 20 00:22:05 CDT 2025",
        "wed Aug 20 00:22:05 CDT 2025",
        "Wed Aug 32 00:22:05 CDT 2025",
        "Wed Aug 0 00:22:05 CDT 2025",
        "Wed Aug 020 00:22:05 CDT 2025",
        "Wed Feb 29 00:22:05 CDT 2025",
        "Wed Apr 31 00:22:05 CDT 2025",
        "Wed Aug 20 24:00:00 CDT 2025",
        "Wed Aug 20 00:60:00 CDT 2025",
        "Wed Aug 20 00:00:60 CDT 2025",
        "Wed Aug 20 0:22:05 CDT 2025",
        "Wed Aug 20 00-22-05 CDT 2025",
        "Wed Aug 20 00:22:05 CDT 20x5",
        "Wed Aug 20 00:22:05 CDT 1234567",
        "Wed Aug 20 00:22:05 CDT 999999",
        "Wed\tAug 20 00:22:05 CDT 2025",
    ] {
        assert_eq!(stamp(text), None, "{text}");
    }
}

#[test]
fn words_stand_between_spaces() {
    let text = chars("  a  bc   d ");
    let found: Vec<String> = words(&text).iter().map(|w| w.iter().collect()).collect();
    assert_eq!(found, vec!["a", "bc", "d"]);
    assert!(words(&chars("")).is_empty());
    assert!(words(&chars("   ")).is_empty());
}

#[test]
fn file_counts() {
    assert_eq!(read_file_count(&chars("            5 / 5, 100%")), Some(5));
    assert_eq!(read_file_count(&chars("12/34,56%")), Some(12));
    assert_eq!(read_file_count(&chars("\t 1 /  20,  5% trailing")), Some(1));
    assert_eq!(read_file_count(&chars("0 / 0, 0%")), Some(0));
    assert_eq!(read_file_count(&chars("18446744073709551615 / 1, 1%")), Some(u64::MAX));
    assert_eq!(read_file_count(&chars("18446744073709551616 / 1, 1%")), None);
    for text in ["", "5", "5 / 5", "5 / 5, 100", "5 / 5 100%", "5 5, 100%", "/ 5, 100%", "a / 5, 1%",
        "5 / , 100%", "5 / 5, %", "66 B / 66 B, 100%", "1.5 / 5, 100%"] {
        assert_eq!(read_file_count(&chars(text)), None, "{text}");
    }
}

#[test]
fn byte_counts() {
    assert_eq!(read_byte_count(&chars("   \t    1.50 GiB / 1.50 GiB, 100%, 10 MiB/s, ETA 0s")), Some(1_610_612_736));
    assert_eq!(read_byte_count(&chars("66 B / 66 B, 100%, 0 B/s, ETA -")), Some(66));
    assert_eq!(read_byte_count(&chars("500MB/1GB")), Some(500_000_000));
    assert_eq!(read_byte_count(&chars("1,234 KiB / 2 MiB")), Some(1_263_616));
    assert_eq!(read_byte_count(&chars("0 B / 0 B, -, 0 B/s, ETA -")), Some(0));
    for text in ["", "5 / 5, 100%", "1.5 GiB", "1.5 GiB / ", "1.5 GiB / x", "GiB / GiB", "1.5 XB / 2 XB",
        "1.5 GiB 2 GiB", "1.2.3 MB / 5 MB", "1.5 B / 2 B", "5 iB / 6 iB"] {
        assert_eq!(read_byte_count(&chars(text)), None, "{text}");
    }
}

#[test]
fn kinds_of_lines() {
    match kind("Wed Aug 20 00:22:05 CDT 2025: Starting backup for profile home") {
        LogLine::Start(Some(s)) => assert_eq!((s.date.day(), s.time.second()), (20, 5)),
        other => panic!("{:?}", other),
    }
    match kind("Wed Aug 20 00:22:05 CDT 2025: Starting scheduled backup for profile home") {
        LogLine::Start(Some(s)) => assert_eq!(s.date.month(), 8),
        other => panic!("{:?}", other),
    }
    assert!(matches!(kind("garbage: Starting backup for profile home"), LogLine::Start(None)));
    assert!(matches!(kind("Starting backup"), LogLine::Start(None)));
    assert!(matches!(
        kind("Wed Aug 20 00:25:00 CDT 2025: Backup completed for profile home"),
        LogLine::Completion
    ));
    assert!(matches!(kind("Backup completed"), LogLine::Completion));
    // A line with both phrases opens a run.
    assert!(matches!(kind("x: Starting backup after Backup completed"), LogLine::Start(None)));
    assert!(matches!(kind("plain text"), LogLine::Body { files: None, bytes: None }));
    assert!(matches!(kind(""), LogLine::Body { files: None, bytes: None }));
    assert!(matches!(
        kind("Transferred:            5 / 5, 100%"),
        LogLine::Body { files: Some(5), bytes: None }
    ));
    assert!(matches!(
        kind("2025/08/20 INFO : Transferred:   1 KiB / 1 KiB, 100%"),
        LogLine::Body { files: None, bytes: Some(1024) }
    ));
    assert!(matches!(kind("Transferred: soon"), LogLine::Body { files: None, bytes: None }));
    assert!(matches!(kind("transferred: 5 / 5, 100%"), LogLine::Body { files: None, bytes: None }));
}
