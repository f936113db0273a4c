use chrono::{Local, NaiveDate, TimeZone};
use cloud_backup::calendar::{CalendarDate, LocalMoment, TimeOfDay};
use cloud_backup::config::{
    activate_profile, active_profile, add_profile, apply_reconciliation, config_dir_under,
    find_profile, get_config_dir, get_config_file, join_path, note_last_run, record_operations,
    remove_profile, replace_profile, schedule_backup, schedule_of, schedule_profile,
    sync_scheduled_backup_logs, unschedule_profile,
};
use cloud_backup::models::{
    AppConfig, BackupOperation, OperationStatus, OperationType, Profile, ProfileType,
};
use cloud_backup::reconcile::Reconciliation;
use cloud_backup::schedule::{Schedule, ScheduleFrequency};

fn profile(id: &str) -> Profile {
    let mut p = Profile::new(format!("name of {id}"), ProfileType::User);
    p.id = id.to_string();
    p.created_at = 1;
    p.updated_at = 1;
    p
}

fn config(ids: &[&str]) -> AppConfig {
    AppConfig {
        profiles: ids.iter().map(|id| profile(id)).collect(),
        active_profile_id: None,
        app_version: "1.0".to_string(),
        backup_operations: Vec::new(),
        created_at: 1,
        updated_at: 1,
    }
}

fn ids(config: &AppConfig) -> Vec<&str> {
    config.profiles.iter().map(|p| p.id.as_str()).collect()
}

fn schedule(time: &str) -> Schedule {
    Schedule {
        enabled: true,
        frequency: ScheduleFrequency::Daily,
        time: time.to_string(),
        last_run: None,
        next_run: None,
    }
}

fn moment(year: i32, month: u32, day: u32, hour: u32, minute: u32, weekday: u32) -> LocalMoment {
    LocalMoment::new(
        CalendarDate::new(year, month, day).unwrap(),
        TimeOfDay::new(hour, minute, 0).unwrap(),
        weekday,
    )
    .unwrap()
}

fn instant(year: i32, month: u32, day: u32, hour: u32, minute: u32, second: u32) -> i64 {
    let naive =
        NaiveDate::from_ymd_opt(year, month, day).unwrap().and_hms_opt(hour, minute, second).unwrap();
    Local.from_local_datetime(&naive).single().unwrap().timestamp_millis()
}

fn operation(id: &str, profile_id: &str, started_at: i64) -> BackupOperation {
    BackupOperation {
        id: id.to_string(),
        profile_id: profile_id.to_string(),
        operation_type: OperationType::Backup,
        status: OperationStatus::Completed,
        started_at,
        completed_at: None,
        files_transferred: 0,
        bytes_transferred: 0,
        error_message: None,
        log_output: String::new(),
    }
}

#[test]
fn paths_are_joined_with_one_stroke() {
    assert_eq!(join_path("/home/u/.config", "app"), "/home/u/.config/app");
    assert_eq!(join_path("/home/u/.config/", "app"), "/home/u/.config/app");
    assert_eq!(join_path("/", "app"), "/app");
    assert_eq!(join_path("", "app"), "app");
    assert_eq!(join_path("a", ""), "a/");
}

#[test]
fn where_the_application_keeps_its_files() {
    assert_eq!(
        config_dir_under(Some("/home/u/.config".to_string())),
        Ok("/home/u/.config/cloud-backup-app".to_string())
    );
    assert_eq!(config_dir_under(None), Err("Could not determine config directory".to_string()));
    match (get_config_dir(), get_config_file()) {
        (Ok(dir), Ok(file)) => {
            assert!(dir.ends_with("/cloud-backup-app"));
            assert_eq!(file, format!("{dir}/config.json"));
        },
        (Err(a), Err(b)) => {
            assert_eq!(a, "Could not determine config directory");
            assert_eq!(b, a);
        },
        other => panic!("{:?}", other),
    }
}

#[test]
fn finding_a_profile() {
    let c = config(&["a", "b", "a"]);
    assert_eq!(find_profile(&c.profiles, "a"), Some(0));
    assert_eq!(find_profile(&c.profiles, "b"), Some(1));
    assert_eq!(find_profile(&c.profiles, "c"), None);
    assert_eq!(find_profile(&c.profiles, ""), None);
    assert_eq!(find_profile(&[], "a"), None);
}

#[test]
fn adding_and_replacing_profiles() {
    let mut c = config(&["a"]);
    add_profile(&mut c, profile("b"), 5);
    assert_eq!(ids(&c), vec!["a", "b"]);
    assert_eq!(c.updated_at, 5);
    let mut changed = profile("a");
    changed.name = "renamed".to_string();
    assert_eq!(replace_profile(&mut c, changed, 9), Ok(0));
    assert_eq!(c.profiles[0].name, "renamed");
    assert_eq!(c.profiles[0].updated_at, 9);
    assert_eq!(c.profiles[1].updated_at, 1);
    assert_eq!(c.updated_at, 9);
    assert_eq!(replace_profile(&mut c, profile("z"), 10), Err("Profile not found".to_string()));
    assert_eq!(c.updated_at, 9);
    assert_eq!(ids(&c), vec!["a", "b"]);
}

#[test]
fn removing_profiles() {
    let mut c = config(&["a", "b", "a", "c"]);
    c.active_profile_id = Some("a".to_string());
    assert_eq!(remove_profile(&mut c, "a", 7), Ok(()));
    assert_eq!(ids(&c), vec!["b", "c"]);
    assert_eq!(c.active_profile_id, None);
    assert_eq!(c.updated_at, 7);
    c.active_profile_id = Some("b".to_string());
    assert_eq!(remove_profile(&mut c, "c", 8), Ok(()));
    assert_eq!(c.active_profile_id, Some("b".to_string()));
    assert_eq!(remove_profile(&mut c, "zz", 9), Err("Profile not found".to_string()));
    assert_eq!(ids(&c), vec!["b"]);
    assert_eq!(c.updated_at, 8);
}

#[test]
fn the_active_profile() {
    let mut c = config(&["a", "b"]);
    assert!(active_profile(&c).is_none());
    assert_eq!(activate_profile(&mut c, "b", 4), Ok(()));
    assert_eq!(c.active_profile_id, Some("b".to_string()));
    assert_eq!(c.updated_at, 4);
    assert_eq!(active_profile(&c).unwrap().id, "b");
    assert_eq!(activate_profile(&mut c, "z", 5), Err("Profile not found".to_string()));
    assert_eq!(c.active_profile_id, Some("b".to_string()));
    assert_eq!(c.updated_at, 4);
    c.active_profile_id = Some("gone".to_string());
    assert!(active_profile(&c).is_none());
}

#[test]
fn giving_and_taking_a_schedule() {
    let mut c = config(&["a", "b"]);
    let now = moment(2025, 6, 10, 8, 0, 2);
    let now_utc = instant(2025, 6, 10, 8, 0, 0);
    assert_eq!(schedule_profile(&mut c, "b", schedule("09:00"), &now, now_utc), Ok(1));
    let set = c.profiles[1].schedule.as_ref().unwrap();
    assert_eq!(set.next_run, Some(instant(2025, 6, 10, 9, 0, 0)));
    assert_eq!(set.time, "09:00");
    assert_eq!(c.profiles[1].updated_at, now_utc);
    assert_eq!(c.updated_at, now_utc);
    assert!(c.profiles[0].schedule.is_none());
    assert!(schedule_of(&c, "b").unwrap().is_some());
    assert!(schedule_of(&c, "a").unwrap().is_none());
    assert_eq!(schedule_of(&c, "z").unwrap_err(), "Profile not found");
    assert_eq!(
        schedule_profile(&mut c, "a", schedule("soon"), &now, now_utc),
        Err("Invalid time format".to_string())
    );
    assert!(c.profiles[0].schedule.is_none());
    let mut weekly = schedule("09:00");
    weekly.frequency = ScheduleFrequency::Weekly(8);
    assert_eq!(
        schedule_profile(&mut c, "a", weekly, &now, now_utc),
        Err("Invalid day of the week".to_string())
    );
    let mut monthly = schedule("09:00");
    monthly.frequency = ScheduleFrequency::Monthly(0);
    assert_eq!(
        schedule_profile(&mut c, "a", monthly, &now, now_utc),
        Err("Invalid day of the month".to_string())
    );
    assert_eq!(
        schedule_profile(&mut c, "z", schedule("09:00"), &now, now_utc),
        Err("Profile not found".to_string())
    );
    let mut disabled = schedule("09:00");
    disabled.enabled = false;
    disabled.next_run = Some(5);
    assert_eq!(schedule_profile(&mut c, "a", disabled, &now, now_utc), Ok(0));
    assert_eq!(c.profiles[0].schedule.as_ref().unwrap().next_run, None);
    assert_eq!(unschedule_profile(&mut c, "b", 77), Ok(1));
    assert!(c.profiles[1].schedule.is_none());
    assert_eq!(c.profiles[1].updated_at, 77);
    assert_eq!(c.updated_at, 77);
    assert_eq!(unschedule_profile(&mut c, "z", 78), Err("Profile not found".to_string()));
}

#[test]
fn a_schedule_notes_its_last_run() {
    let mut c = config(&["a", "b"]);
    c.profiles[1].schedule = Some(schedule("09:00"));
    let now = moment(2025, 6, 10, 10, 0, 2);
    let now_utc = instant(2025, 6, 10, 10, 0, 0);
    note_last_run(&mut c, "b", 1234, &now, now_utc);
    let noted = c.profiles[1].schedule.as_ref().unwrap();
    assert_eq!(noted.last_run, Some(1234));
    assert_eq!(noted.next_run, Some(instant(2025, 6, 11, 9, 0, 0)));
    assert_eq!(c.profiles[1].updated_at, 1);
    // A profile without a schedule stays without.
    note_last_run(&mut c, "a", 1234, &now, now_utc);
    assert!(c.profiles[0].schedule.is_none());
    note_last_run(&mut c, "z", 1234, &now, now_utc);
    assert_eq!(ids(&c), vec!["a", "b"]);
    // A schedule that cannot be used notes the run and has no next run.
    c.profiles[1].schedule = Some(schedule("bad"));
    c.profiles[1].schedule.as_mut().unwrap().next_run = Some(1);
    note_last_run(&mut c, "b", 99, &now, now_utc);
    let noted = c.profiles[1].schedule.as_ref().unwrap();
    assert_eq!((noted.last_run, noted.next_run), (Some(99), None));
}

#[test]
fn recording_many_runs() {
    let mut history: Vec<BackupOperation> =
        (0..99).map(|i| operation(&format!("old{i}"), "p", i)).collect();
    let new = vec![operation("n1", "p", 500), operation("n2", "p", 501), operation("n3", "p", 502)];
    record_operations(&mut history, new);
    assert_eq!(history.len(), 100);
    assert_eq!(history[0].id, "old2");
    assert_eq!(history[97].id, "n1");
    assert_eq!(history[99].id, "n3");
    record_operations(&mut history, Vec::new());
    assert_eq!(history.len(), 100);
}

#[test]
fn taking_in_a_reconciliation() {
    let mut c = config(&["a", "b"]);
    c.profiles[0].schedule = Some(schedule("09:00"));
    c.backup_operations.push(operation("old", "a", 1));
    let outcome = Reconciliation {
        new_operations: vec![operation("n1", "a", 100), operation("n2", "a", 200)],
        last_runs: vec![100, 150, 200],
    };
    let now = moment(2025, 6, 10, 8, 0, 2);
    let new = apply_reconciliation(&mut c, "a", outcome, &now, instant(2025, 6, 10, 8, 0, 0));
    assert_eq!(new, 2);
    let recorded: Vec<&str> = c.backup_operations.iter().map(|o| o.id.as_str()).collect();
    assert_eq!(recorded, vec!["old", "n1", "n2"]);
    let noted = c.profiles[0].schedule.as_ref().unwrap();
    assert_eq!(noted.last_run, Some(200));
    assert_eq!(noted.next_run, Some(instant(2025, 6, 10, 9, 0, 0)));
    assert_eq!(c.updated_at, 1);
    let nothing = Reconciliation { new_operations: Vec::new(), last_runs: Vec::new() };
    let new = apply_reconciliation(&mut c, "a", nothing, &now, 0);
    assert_eq!(new, 0);
    assert_eq!(c.profiles[0].schedule.as_ref().unwrap().last_run, Some(200));
}

const LOG: &str = "Wed Aug 20 12:22:05 CDT 2025: Starting backup for profile home\n\
Transferred:            5 / 5, 100%\n\
Wed Aug 20 12:25:00 CDT 2025: Backup completed for profile home\n";

#[test]
fn bringing_the_history_up_to_date_with_a_log() {
    let mut c = config(&["a", "b"]);
    c.profiles[0].schedule = Some(schedule("09:00"));
    c.backup_operations.push(operation("other", "b", instant(2025, 8, 20, 12, 22, 5)));
    assert_eq!(sync_scheduled_backup_logs(&mut c, "a", LOG), 1);
    assert_eq!(c.backup_operations.len(), 2);
    let op = &c.backup_operations[1];
    assert_eq!(op.profile_id, "a");
    assert_eq!(op.files_transferred, 5);
    assert_eq!(op.started_at, instant(2025, 8, 20, 12, 22, 5));
    let noted = c.profiles[0].schedule.as_ref().unwrap();
    assert_eq!(noted.last_run, Some(instant(2025, 8, 20, 12, 22, 5)));
    assert!(noted.next_run.unwrap() > chrono::Utc::now().timestamp_millis());
    // A second reading adds nothing and still tells the schedule.
    c.profiles[0].schedule.as_mut().unwrap().last_run = None;
    assert_eq!(sync_scheduled_backup_logs(&mut c, "a", LOG), 0);
    assert_eq!(c.backup_operations.len(), 2);
    assert_eq!(
        c.profiles[0].schedule.as_ref().unwrap().last_run,
        Some(instant(2025, 8, 20, 12, 22, 5))
    );
    // No log, no change.
    assert_eq!(sync_scheduled_backup_logs(&mut c, "a", ""), 0);
    assert_eq!(c.backup_operations.len(), 2);
    // A profile that is not kept still has its runs recorded.
    assert_eq!(sync_scheduled_backup_logs(&mut c, "ghost", LOG), 1);
    assert_eq!(c.backup_operations.len(), 3);
}

#[test]
fn giving_a_schedule_by_the_clock() {
    let mut c = config(&["a", "b"]);
    let before = chrono::Utc::now().timestamp_millis();
    assert_eq!(schedule_backup(&mut c, "b", schedule("09:00")), Ok(1));
    let after = chrono::Utc::now().timestamp_millis();
    let set = c.profiles[1].schedule.as_ref().unwrap();
    let due = set.next_run.unwrap();
    assert!(due > before && due <= after + 24 * 3600 * 1000 + 3600 * 1000);
    assert!(before <= c.updated_at && c.updated_at <= after);
    assert_eq!(c.profiles[1].updated_at, c.updated_at);
    assert_eq!(
        schedule_backup(&mut c, "a", schedule("25:00")),
        Err("Invalid time format".to_string())
    );
    assert_eq!(
        schedule_backup(&mut c, "z", schedule("09:00")),
        Err("Profile not found".to_string())
    );
    assert!(c.profiles[0].schedule.is_none());
}
