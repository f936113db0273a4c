use cloud_backup::models::{BackupMode, Profile, ProfileType};
use cloud_backup::os_schedule::{
    agent_args, agent_failure_message, calendar_interval, generate_backup_commands, launch_agent,
    launch_agent_name, launch_agent_path, launch_agent_path_under, log_file, log_file_under,
    runner_script, runner_script_name,
};
use cloud_backup::schedule::{Schedule, ScheduleError, ScheduleFrequency};

fn schedule(frequency: ScheduleFrequency, time: &str) -> Schedule {
    Schedule { enabled: true, frequency, time: time.to_string(), last_run: None, next_run: None }
}

#[test]
fn commands_for_each_source() {
    let sources = vec!["/home/u/docs".to_string(), "/home/u/my pics".to_string()];
    let commands = generate_backup_commands(&sources, "aws:b/p", "copy", "--checksum -v");
    assert_eq!(
        commands,
        "echo \"$(date): Backing up /home/u/docs\" >> \"$LOG_FILE\"\n\
\"$RCLONE_BIN\" copy \"/home/u/docs\" \"aws:b/p\" --config \"$RCLONE_CONFIG\" --checksum -v --log-file \"$LOG_FILE\" --log-level INFO\n\
\n\
echo \"$(date): Backing up /home/u/my pics\" >> \"$LOG_FILE\"\n\
\"$RCLONE_BIN\" copy \"/home/u/my pics\" \"aws:b/p\" --config \"$RCLONE_CONFIG\" --checksum -v --log-file \"$LOG_FILE\" --log-level INFO"
    );
    assert_eq!(generate_backup_commands(&[], "d", "copy", ""), "");
    let one = generate_backup_commands(&["s".to_string()], "d", "sync", "");
    assert_eq!(
        one,
        "echo \"$(date): Backing up s\" >> \"$LOG_FILE\"\n\"$RCLONE_BIN\" sync \"s\" \"d\" --config \"$RCLONE_CONFIG\"  --log-file \"$LOG_FILE\" --log-level INFO"
    );
}

#[test]
fn the_runner_script() {
    let mut profile = Profile::new("home".to_string(), ProfileType::User);
    profile.id = "abc".to_string();
    profile.rclone_bin = "/usr/bin/rclone".to_string();
    profile.rclone_conf = "/c/rclone.conf".to_string();
    profile.bucket = "bucket".to_string();
    profile.prefix = "alice".to_string();
    profile.sources = vec!["/docs".to_string()];
    profile.mode = BackupMode::Sync;
    let script = runner_script(&profile, "2025-01-16 12:34:56 UTC");
    assert_eq!(
        script,
        "#!/bin/bash\nset -euo pipefail\n\n# Cloud Backup App - Auto Backup Script\n# Profile: home\n# Generated: 2025-01-16 12:34:56 UTC\n\nRCLONE_BIN=\"/usr/bin/rclone\"\nRCLONE_CONFIG=\"/c/rclone.conf\"\nDESTINATION=\"aws:bucket/alice\"\nOPERATION=\"sync\"\nFLAGS=\"--checksum --fast-list --transfers=8 --checkers=32\"\n\n# Log file\nLOG_FILE=\"$HOME/.config/cloud-backup-app/logs/backup-abc.log\"\nmkdir -p \"$(dirname \"$LOG_FILE\")\"\n\necho \"$(date): Starting backup for profile home\" >> \"$LOG_FILE\"\n\n# Backup each source\necho \"$(date): Backing up /docs\" >> \"$LOG_FILE\"\n\"$RCLONE_BIN\" sync \"/docs\" \"aws:bucket/alice\" --config \"$RCLONE_CONFIG\" --checksum --fast-list --transfers=8 --checkers=32 --log-file \"$LOG_FILE\" --log-level INFO\n\necho \"$(date): Backup completed for profile home\" >> \"$LOG_FILE\"\n"
    );
}

#[test]
fn names_of_the_files() {
    assert_eq!(runner_script_name("abc"), "backup-abc.sh");
    assert_eq!(launch_agent_name("abc"), "com.cloudbackup.backup-abc.plist");
}

#[test]
fn the_times_of_an_agent() {
    assert_eq!(
        calendar_interval(&schedule(ScheduleFrequency::Daily, "09:05")).unwrap(),
        "<dict><key>Hour</key><integer>9</integer><key>Minute</key><integer>5</integer></dict>"
    );
    assert_eq!(
        calendar_interval(&schedule(ScheduleFrequency::Weekly(3), "23:00")).unwrap(),
        "<dict><key>Weekday</key><integer>3</integer><key>Hour</key><integer>23</integer><key>Minute</key><integer>0</integer></dict>"
    );
    assert_eq!(
        calendar_interval(&schedule(ScheduleFrequency::Monthly(31), "00:59")).unwrap(),
        "<dict><key>Day</key><integer>31</integer><key>Hour</key><integer>0</integer><key>Minute</key><integer>59</integer></dict>"
    );
    assert_eq!(
        calendar_interval(&schedule(ScheduleFrequency::Daily, "nine")),
        Err(ScheduleError::InvalidTime)
    );
}

#[test]
fn the_description_of_an_agent() {
    let agent = launch_agent(
        "abc",
        &schedule(ScheduleFrequency::Daily, "09:05"),
        "/c/scripts/backup-abc.sh",
        "/c",
    )
    .unwrap();
    assert_eq!(
        agent,
        "<?xml version=\"1.0\" encoding=\"UTF-8\"?>\n<!DOCTYPE plist PUBLIC \"-//Apple//DTD PLIST 1.0//EN\" \"http://www.apple.com/DTDs/PropertyList-1.0.dtd\">\n<plist version=\"1.0\">\n<dict>\n    <key>Label</key>\n    <string>com.cloudbackup.backup-abc</string>\n    <key>ProgramArguments</key>\n    <array>\n        <string>/c/scripts/backup-abc.sh</string>\n    </array>\n    <key>StartCalendarInterval</key>\n    <dict><key>Hour</key><integer>9</integer><key>Minute</key><integer>5</integer></dict>\n    <key>WorkingDirectory</key>\n    <string>/c</string>\n    <key>StandardOutPath</key>\n    <string>/tmp/backup-abc.out</string>\n    <key>StandardErrorPath</key>\n    <string>/tmp/backup-abc.err</string>\n</dict>\n</plist>"
    );
    assert_eq!(
        launch_agent("abc", &schedule(ScheduleFrequency::Daily, ""), "s", "d"),
        Err(ScheduleError::InvalidTime)
    );
}

#[test]
fn words_for_the_agent_manager() {
    assert_eq!(agent_args(true, "/p.plist"), vec!["load", "-w", "/p.plist"]);
    assert_eq!(agent_args(false, "/p.plist"), vec!["unload", "-w", "/p.plist"]);
    assert_eq!(agent_failure_message("no"), "Failed to load launch agent: no");
}

#[test]
fn where_an_agent_is_described() {
    assert_eq!(
        launch_agent_path_under(Some("/Users/u".to_string()), "abc"),
        Ok("/Users/u/Library/LaunchAgents/com.cloudbackup.backup-abc.plist".to_string())
    );
    assert_eq!(
        launch_agent_path_under(Some("/Users/u/".to_string()), ""),
        Ok("/Users/u/Library/LaunchAgents/com.cloudbackup.backup-.plist".to_string())
    );
    assert_eq!(
        launch_agent_path_under(None, "abc"),
        Err("Could not determine home directory".to_string())
    );
    match launch_agent_path("abc") {
        Ok(path) => assert!(path.ends_with("/Library/LaunchAgents/com.cloudbackup.backup-abc.plist")),
        Err(message) => assert_eq!(message, "Could not determine home directory"),
    }
}

#[test]
fn where_a_scheduled_backup_keeps_its_log() {
    assert_eq!(
        log_file_under(Some("/home/u".to_string()), "abc"),
        Ok("/home/u/.config/cloud-backup-app/logs/backup-abc.log".to_string())
    );
    assert_eq!(
        log_file_under(None, "abc"),
        Err("Could not determine home directory".to_string())
    );
    match log_file("abc") {
        Ok(path) => assert!(path.ends_with("/.config/cloud-backup-app/logs/backup-abc.log")),
        Err(message) => assert_eq!(message, "Could not determine home directory"),
    }
}
