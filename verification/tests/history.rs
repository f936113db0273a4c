use cloud_backup::history::{recent_operations, record_operation, HISTORY_LIMIT};
use cloud_backup::models::{BackupOperation, OperationStatus, OperationType};

fn operation(id: &str, profile_id: &str, started_at: i64) -> BackupOperation {
    BackupOperation {
        id: id.to_string(),
        profile_id: profile_id.to_string(),
        operation_type: OperationType::Backup,
        status: OperationStatus::Completed,
        started_at,
        completed_at: None,
        files_transferred: 1,
        bytes_transferred: 2,
        error_message: Some("e".to_string()),
        log_output: "log".to_string(),
    }
}

fn ids(operations: &[BackupOperation]) -> Vec<String> {
    operations.iter().map(|o| o.id.clone()).collect()
}

#[test]
fn the_limit_is_a_hundred() {
    assert_eq!(HISTORY_LIMIT, 100);
}

#[test]
fn history_grows_until_it_is_full() {
    let mut history = Vec::new();
    for i in 0..100 {
        record_operation(&mut history, operation(&format!("op{i}"), "p", i));
        assert_eq!(history.len(), i as usize + 1);
    }
    assert_eq!(history[0].id, "op0");
    assert_eq!(history[99].id, "op99");
}

#[test]
fn a_full_history_drops_the_oldest() {
    let mut history = Vec::new();
    for i in 0..100 {
        record_operation(&mut history, operation(&format!("op{i}"), "p", i));
    }
    record_operation(&mut history, operation("op100", "p", 100));
    assert_eq!(history.len(), 100);
    assert_eq!(history[0].id, "op1");
    assert_eq!(history[99].id, "op100");
    let found = recent_operations(&history, "p", None);
    assert_eq!(found.len(), 100);
    assert_eq!(found[0].id, "op100");
    assert_eq!(found[99].id, "op1");
    for pair in found.windows(2) {
        assert!(pair[0].started_at >= pair[1].started_at);
    }
}

#[test]
fn an_overfull_history_is_cut_to_the_limit() {
    let mut history: Vec<BackupOperation> =
        (0..150).map(|i| operation(&format!("op{i}"), "p", i)).collect();
    record_operation(&mut history, operation("new", "p", 999));
    assert_eq!(history.len(), 100);
    assert_eq!(history[0].id, "op51");
    assert_eq!(history[99].id, "new");
}

#[test]
fn recent_runs_of_one_profile_newest_first() {
    let history = vec![
        operation("a", "p", 30),
        operation("b", "q", 99),
        operation("c", "p", 10),
        operation("d", "p", 50),
        operation("e", "p", 30),
        operation("f", "other", 70),
        operation("g", "p", 50),
    ];
    let found = recent_operations(&history, "p", None);
    // Runs with the same start keep the order of the history.
    assert_eq!(ids(&found), vec!["d", "g", "a", "e", "c"]);
    assert_eq!(found[0].log_output, "log");
    assert_eq!(found[0].error_message, Some("e".to_string()));
    assert_eq!(found[0].files_transferred, 1);
    let found = recent_operations(&history, "p", Some(2));
    assert_eq!(ids(&found), vec!["d", "g"]);
    let found = recent_operations(&history, "p", Some(0));
    assert!(found.is_empty());
    let found = recent_operations(&history, "p", Some(50));
    assert_eq!(found.len(), 5);
    let found = recent_operations(&history, "q", None);
    assert_eq!(ids(&found), vec!["b"]);
    let found = recent_operations(&history, "nobody", None);
    assert!(found.is_empty());
    let found = recent_operations(&[], "p", Some(3));
    assert!(found.is_empty());
}

#[test]
fn recent_runs_agree_with_a_stable_sort() {
    let history: Vec<BackupOperation> = (0..60)
        .map(|i| operation(&format!("op{i}"), if i % 3 == 0 { "q" } else { "p" }, (i * 37) % 11))
        .collect();
    let found = recent_operations(&history, "p", Some(25));
    let mut expected: Vec<BackupOperation> =
        history.iter().filter(|o| o.profile_id == "p").cloned().collect();
    expected.sort_by(|a, b| b.started_at.cmp(&a.started_at));
    expected.truncate(25);
    assert_eq!(ids(&found), ids(&expected));
}
