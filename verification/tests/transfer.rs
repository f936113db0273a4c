use cloud_backup::models::{
    BackupMode, ChangeAction, FileChange, OperationStatus, OperationType, Profile, ProfileType,
};
use cloud_backup::transfer::{
    backup_args, changes_with, listing_args, listing_target, missing_binary_message,
    missing_config_message, missing_source_message, must_exist, operation_name, preview_args,
    remote_path, restore_args, summarize_changes, StepOutcome, TransferTotals,
};

fn strings(items: &[&str]) -> Vec<String> {
    items.iter().map(|s| s.to_string()).collect()
}

#[test]
fn words_for_the_modes() {
    assert_eq!(operation_name(BackupMode::Copy), "copy");
    assert_eq!(operation_name(BackupMode::Sync), "sync");
}

#[test]
fn arguments_of_a_backup() {
    let flags = strings(&["--checksum", "--transfers=8"]);
    assert_eq!(
        backup_args("copy", "/home/u/docs", "aws:bucket/p", "/c/rclone.conf", false, &flags),
        strings(&[
            "copy", "/home/u/docs", "aws:bucket/p", "--config", "/c/rclone.conf", "--progress",
            "--stats=1s", "--stats-one-line", "-v", "--checksum", "--transfers=8",
        ])
    );
    assert_eq!(
        backup_args("sync", "s", "d", "c", true, &[]),
        strings(&[
            "sync", "s", "d", "--config", "c", "--progress", "--stats=1s", "--stats-one-line",
            "-v", "--dry-run",
        ])
    );
}

#[test]
fn arguments_of_a_preview_a_restore_and_a_listing() {
    assert_eq!(
        preview_args("copy", "s", "d", "c", &strings(&["--fast-list"])),
        strings(&["copy", "s", "d", "--dry-run", "--stats=0", "--config", "c", "--fast-list"])
    );
    assert_eq!(
        restore_args("aws:b/p/file", "/tmp/out", "c"),
        strings(&[
            "copy", "aws:b/p/file", "/tmp/out", "--config", "c", "--progress", "--stats=1s",
            "--stats-one-line", "-v", "--checksum", "--fast-list",
        ])
    );
    assert_eq!(
        listing_args("aws:b", "c", None),
        strings(&["lsjson", "aws:b", "--fast-list", "--config", "c", "--recursive"])
    );
    assert_eq!(
        listing_args("aws:b", "c", Some(3)),
        strings(&["lsjson", "aws:b", "--fast-list", "--config", "c", "--max-depth", "3"])
    );
    assert_eq!(listing_args("t", "c", Some(0))[6], "0");
    assert_eq!(listing_args("t", "c", Some(u32::MAX))[6], "4294967295");
}

#[test]
fn paths_below_a_base() {
    assert_eq!(remote_path("aws:b/p", "dir/file"), "aws:b/p/dir/file");
    assert_eq!(remote_path("aws:b/p", "/dir/file"), "aws:b/p/dir/file");
    assert_eq!(remote_path("aws:b/p", "///dir//file/"), "aws:b/p/dir//file/");
    assert_eq!(remote_path("aws:b", ""), "aws:b/");
    assert_eq!(remote_path("aws:b", "//"), "aws:b/");
}

fn profile(profile_type: ProfileType, prefix: &str) -> Profile {
    let mut p = Profile::new("n".to_string(), profile_type);
    p.bucket = "bucket".to_string();
    p.prefix = prefix.to_string();
    p
}

#[test]
fn where_a_listing_looks() {
    let admin = profile(ProfileType::Admin, "alice");
    assert_eq!(listing_target(&admin, None), "aws:bucket");
    assert_eq!(listing_target(&admin, Some("/x/y")), "aws:bucket/x/y");
    let user = profile(ProfileType::User, "alice");
    assert_eq!(listing_target(&user, None), "aws:bucket/alice");
    assert_eq!(listing_target(&user, Some("x")), "aws:bucket/alice/x");
    let bare = profile(ProfileType::User, "");
    assert_eq!(listing_target(&bare, None), "aws:bucket");
}

#[test]
fn messages_for_what_is_missing() {
    assert_eq!(missing_binary_message("/x/rclone"), "Rclone binary not found at path: /x/rclone");
    assert_eq!(missing_source_message("/docs"), "Source directory not found: /docs");
    assert_eq!(missing_config_message("/c"), "Rclone config not found at path: /c");
    assert!(must_exist("/usr/bin/rclone"));
    assert!(!must_exist("rclone"));
    assert!(must_exist("rclone "));
    assert!(must_exist(""));
}

const GOOD: &str = "2025/01/16 12:34:56 INFO  : a.txt: Copied (new)\n\
2025/01/16 12:34:56 INFO  : b.txt: Copied (new)\n\
1 KiB / 1 KiB, 100%, 1 KiB/s, ETA 0s\n";

#[test]
fn a_backup_that_goes_well() {
    let totals = TransferTotals::new();
    assert_eq!((totals.output.as_str(), totals.files, totals.bytes), ("", 0, 0));
    let totals = match totals.after_backup_of("copy", "/docs", GOOD, "warn\n", true, false) {
        StepOutcome::Continue(t) => t,
        other => panic!("{:?}", other),
    };
    assert_eq!(totals.output, format!("=== Source: /docs ===\n{}warn\n\n", GOOD));
    assert_eq!((totals.files, totals.bytes), (2, 1024));
    let totals = match totals.after_backup_of("copy", "/pics", GOOD, "", true, false) {
        StepOutcome::Continue(t) => t,
        other => panic!("{:?}", other),
    };
    assert_eq!((totals.files, totals.bytes), (4, 2048));
    let op = totals.into_operation(
        "id".to_string(),
        "p".to_string(),
        OperationType::Backup,
        10,
        20,
        None,
    );
    assert_eq!(op.status, OperationStatus::Completed);
    assert_eq!((op.started_at, op.completed_at), (10, Some(20)));
    assert_eq!((op.files_transferred, op.bytes_transferred), (4, 2048));
    assert_eq!(op.error_message, None);
    assert!(op.log_output.ends_with("=== Source: /pics ===\n2025/01/16 12:34:56 INFO  : a.txt: Copied (new)\n2025/01/16 12:34:56 INFO  : b.txt: Copied (new)\n1 KiB / 1 KiB, 100%, 1 KiB/s, ETA 0s\n\n"));
}

#[test]
fn a_backup_that_fails() {
    let outcome = TransferTotals::new().after_backup_of("sync", "/docs", "out", "boom", false, false);
    let (totals, message) = match outcome {
        StepOutcome::Failed { totals, message } => (totals, message),
        other => panic!("{:?}", other),
    };
    assert_eq!(message, "rclone sync failed for /docs: boom");
    assert_eq!(totals.output, "=== Source: /docs ===\noutboom\n");
    assert_eq!((totals.files, totals.bytes), (0, 0));
    let op = totals.into_operation(
        "id".to_string(),
        "p".to_string(),
        OperationType::Backup,
        10,
        20,
        Some(message),
    );
    assert_eq!(op.status, OperationStatus::Failed);
    assert_eq!(op.error_message, Some("rclone sync failed for /docs: boom".to_string()));
}

#[test]
fn a_trial_goes_on_after_a_failure() {
    let outcome = TransferTotals::new().after_backup_of("sync", "/docs", GOOD, "boom", false, true);
    match outcome {
        StepOutcome::Continue(t) => assert_eq!((t.files, t.bytes), (2, 1024)),
        other => panic!("{:?}", other),
    }
}

#[test]
fn files_count_only_with_a_report_of_bytes() {
    let no_report = "2025/01/16 12:34:56 INFO  : a.txt: Copied (new)\n";
    let totals = TransferTotals::new().count(no_report);
    assert_eq!((totals.files, totals.bytes), (0, 0));
    let totals = TransferTotals { output: String::new(), files: u64::MAX - 1, bytes: u64::MAX }
        .count(GOOD);
    assert_eq!((totals.files, totals.bytes), (u64::MAX, u64::MAX));
}

#[test]
fn a_restore_step() {
    let outcome = TransferTotals::new().after_restore_of("/a/b", "aws:x/p/a/b", GOOD, "", true);
    match outcome {
        StepOutcome::Continue(t) => {
            assert_eq!(t.output, format!("=== Restoring: /a/b ===\n{}\n", GOOD));
            assert_eq!((t.files, t.bytes), (2, 1024));
        },
        other => panic!("{:?}", other),
    }
    let outcome = TransferTotals::new().after_restore_of("/a/b", "aws:x/p/a/b", "", "denied", false);
    match outcome {
        StepOutcome::Failed { totals, message } => {
            assert_eq!(message, "restore failed for aws:x/p/a/b: denied");
            assert_eq!(totals.output, "=== Restoring: /a/b ===\ndenied\n");
        },
        other => panic!("{:?}", other),
    }
}

fn change(path: &str, size: u64, action: ChangeAction) -> FileChange {
    FileChange { path: path.to_string(), size, action }
}

#[test]
fn changes_by_kind() {
    let changes = vec![
        change("a", 1, ChangeAction::Copy),
        change("b", 2, ChangeAction::Delete),
        change("c", 3, ChangeAction::Copy),
        change("d", 4, ChangeAction::Update),
    ];
    let preview = summarize_changes(&changes);
    let paths = |list: &Vec<FileChange>| list.iter().map(|c| c.path.clone()).collect::<Vec<_>>();
    assert_eq!(paths(&preview.files_to_copy), vec!["a", "c"]);
    assert_eq!(paths(&preview.files_to_update), vec!["d"]);
    assert_eq!(paths(&preview.files_to_delete), vec!["b"]);
    assert_eq!(preview.total_files, 4);
    assert_eq!(preview.total_size, 10);
    assert_eq!(preview.files_to_copy[1].size, 3);
    assert!(changes_with(&changes, ChangeAction::Delete).len() == 1);
    let empty = summarize_changes(&[]);
    assert_eq!((empty.total_files, empty.total_size), (0, 0));
    let huge = vec![change("a", u64::MAX, ChangeAction::Copy), change("b", 5, ChangeAction::Copy)];
    assert_eq!(summarize_changes(&huge).total_size, u64::MAX);
}
