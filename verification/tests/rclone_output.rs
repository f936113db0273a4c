use cloud_backup::models::ChangeAction;
use cloud_backup::rclone_output::{
    bytes_from_captures, bytes_of_line, extract_file_path_from_notice, parse_dry_run_output,
    parse_rclone_file_operations, parse_rclone_stats,
};

#[test]
fn stats_of_progress_lines() {
    assert_eq!(parse_rclone_stats("66 B / 66 B, 100%, 0 B/s, ETA -"), Some((0, 66)));
    assert_eq!(
        parse_rclone_stats("1.234 MiB / 2.468 MiB, 50%, 1.5 MiB/s, ETA 1s"),
        Some((0, 1_293_942))
    );
    assert_eq!(parse_rclone_stats("   500MB / 1 GB, 50%"), Some((0, 500_000_000)));
}

#[test]
fn stats_of_transferred_reports() {
    assert_eq!(
        parse_rclone_stats("Transferred:   1.50 GiB / 1.50 GiB, 100%, 10 MiB/s, ETA 0s"),
        Some((0, 1_610_612_736))
    );
    assert_eq!(
        parse_rclone_stats("2025/01/16 INFO : Transferred: 42 B / 42 B"),
        Some((0, 42))
    );
}

#[test]
fn the_latest_report_counts() {
    let output = "10 KiB / 90 KiB, 11%, 1 KiB/s, ETA 80s\n\
some noise\n\
Transferred: 50 KiB / 90 KiB\n\
90 KiB / 90 KiB, 100%, 1 KiB/s, ETA 0s\n\
2025/01/16 12:34:56 INFO  : file.txt: Copied (new)\n";
    assert_eq!(parse_rclone_stats(output), Some((0, 92_160)));
}

#[test]
fn output_without_a_report_has_no_stats() {
    assert_eq!(parse_rclone_stats(""), None);
    assert_eq!(parse_rclone_stats("nothing to see\nTransferred: 5 / 5, 100%\n"), None);
    // A report of no bytes counts as none.
    assert_eq!(parse_rclone_stats("0 B / 0 B, -, 0 B/s, ETA -"), None);
    assert_eq!(parse_rclone_stats("0 B / 0 B, 100%, 0 B/s, ETA -"), None);
    // A progress line must begin the line.
    assert_eq!(parse_rclone_stats("x 66 B / 66 B, 100%"), None);
}

#[test]
fn bytes_of_single_lines() {
    assert_eq!(bytes_of_line("66 B / 66 B, 100%, 0 B/s, ETA -"), Some(66));
    assert_eq!(bytes_of_line("Transferred: 1 KiB / 2 KiB"), Some(1024));
    assert_eq!(bytes_of_line("Transferred: 1,5 KiB / 2 KiB"), Some(15 * 1024));
    assert_eq!(bytes_of_line("plain"), None);
    // The unit is read, the number is not: the line reports nothing.
    assert_eq!(bytes_of_line("1.2.3 KiB / 2 KiB, 50%"), None);
}

#[test]
fn bytes_from_what_was_captured() {
    assert_eq!(bytes_from_captures(Some("1 KiB"), Some("2 KiB")), Some(1024));
    assert_eq!(bytes_from_captures(None, Some("2 KiB")), Some(2048));
    assert_eq!(bytes_from_captures(None, None), None);
    // A progress line that cannot be read hides the report.
    assert_eq!(bytes_from_captures(Some("x"), Some("2 KiB")), None);
    assert_eq!(bytes_from_captures(None, Some("x")), None);
}

#[test]
fn files_copied_and_deleted_are_counted() {
    let output = "2025/01/16 12:34:56 INFO  : a.txt: Copied (new)\n\
2025/01/16 12:34:56 INFO  : b.txt: Copied (replaced existing)\n\
2025/01/16 12:34:56 INFO  : c.txt: Copied (server-side copy)\n\
2025/01/16 12:34:56 INFO  : d.txt: Deleted\n\
2025/01/16 12:34:56 INFO  : e.txt: Copied (new) then Deleted\n\
2025/01/16 12:34:56 INFO  : f.txt: Copied\n\
nothing\n";
    assert_eq!(parse_rclone_file_operations(output), (4, 1));
    assert_eq!(parse_rclone_file_operations(""), (0, 0));
}

#[test]
fn path_between_the_first_two_quotes() {
    assert_eq!(
        extract_file_path_from_notice("NOTICE: \"dir/a b.txt\": would copy"),
        Some("dir/a b.txt".to_string())
    );
    assert_eq!(extract_file_path_from_notice("a \"b\" c \"d\""), Some("b".to_string()));
    assert_eq!(extract_file_path_from_notice("open \"ended"), Some("ended".to_string()));
    assert_eq!(extract_file_path_from_notice("\"\""), Some(String::new()));
    assert_eq!(extract_file_path_from_notice("last\""), Some(String::new()));
    assert_eq!(extract_file_path_from_notice("no quotes"), None);
    assert_eq!(extract_file_path_from_notice(""), None);
}

#[test]
fn changes_of_a_dry_run() {
    let output = "2025/01/16 NOTICE: \"a.txt\": Skipped copy as --dry-run is set: would copy\n\
NOTICE: \"b.txt\": would update\n\
NOTICE: \"c.txt\": would delete\n\
INFO: \"d.txt\": would copy\n\
NOTICE: no path: would copy\n\
NOTICE: \"e.txt\": would copy and would delete\n\
NOTICE: \"f.txt\": nothing\n";
    let changes = parse_dry_run_output(output).unwrap();
    let seen: Vec<(String, u64, ChangeAction)> =
        changes.iter().map(|c| (c.path.clone(), c.size, c.action)).collect();
    assert_eq!(
        seen,
        vec![
            ("a.txt".to_string(), 0, ChangeAction::Copy),
            ("b.txt".to_string(), 0, ChangeAction::Update),
            ("c.txt".to_string(), 0, ChangeAction::Delete),
            ("e.txt".to_string(), 0, ChangeAction::Copy),
        ]
    );
    assert!(parse_dry_run_output("").unwrap().is_empty());
}
