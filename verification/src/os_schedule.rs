//! Handing a schedule to the operating system: the script that runs a
//! backup and writes its log, and the description of the agent that starts
//! the script at the wanted times.

use crate::calendar::Hms;
use crate::compose::{
    decimal_string, decimal_text, fill, filled, join, joined_with, str_texts, string_texts,
};
use crate::config::{join_path, joined, path_model};
use crate::models::{destination_of, text_model, Profile};
use crate::schedule::{
    parse_schedule_time, time_format, Schedule, ScheduleError, ScheduleFrequency,
};
use crate::system::{clock_fields_of, user_home_dir};
use crate::transfer::{operation_name, operation_word, push_text};
use vstd::prelude::*;

verus! {

/// The command for one source up to the source, in the line that tells of it.
pub const BACKUP_COMMAND_00: &'static str = r#"echo "$(date): Backing up "#;

/// From there to the operation.
pub const BACKUP_COMMAND_01: &'static str = r#"" >> "$LOG_FILE"
"$RCLONE_BIN" "#;

/// From there to the source.
pub const BACKUP_COMMAND_02: &'static str = r#" ""#;

/// From there to the destination.
pub const BACKUP_COMMAND_03: &'static str = r#"" ""#;

/// From there to the flags.
pub const BACKUP_COMMAND_04: &'static str = r#"" --config "$RCLONE_CONFIG" "#;

/// The rest of the command.
pub const BACKUP_COMMAND_05: &'static str = r#" --log-file "$LOG_FILE" --log-level INFO"#;

/// The runner script up to the profile's name.
pub const RUNNER_SCRIPT_00: &'static str = r#"#!/bin/bash
set -euo pipefail

# Cloud Backup App - Auto Backup Script
# Profile: "#;

/// From there to the time of writing.
pub const RUNNER_SCRIPT_01: &'static str = r#"
# Generated: "#;

/// From there to the path of the transfer tool.
pub const RUNNER_SCRIPT_02: &'static str = r#"

RCLONE_BIN=""#;

/// From there to the path of its configuration.
pub const RUNNER_SCRIPT_03: &'static str = r#""
RCLONE_CONFIG=""#;

/// From there to the destination.
pub const RUNNER_SCRIPT_04: &'static str = r#""
DESTINATION=""#;

/// From there to the operation.
pub const RUNNER_SCRIPT_05: &'static str = r#""
OPERATION=""#;

/// From there to the flags.
pub const RUNNER_SCRIPT_06: &'static str = r#""
FLAGS=""#;

/// From there to the profile's identifier, in the name of the log.
pub const RUNNER_SCRIPT_07: &'static str = r#""

# Log file
LOG_FILE="$HOME/.config/cloud-backup-app/logs/backup-"#;

/// From there to the profile's name, in the line that opens a run.
pub const RUNNER_SCRIPT_08: &'static str = r#".log"
mkdir -p "$(dirname "$LOG_FILE")"

echo "$(date): Starting backup for profile "#;

/// From there to the commands, one for each source.
pub const RUNNER_SCRIPT_09: &'static str = r#"" >> "$LOG_FILE"

# Backup each source
"#;

/// From there to the profile's name, in the line that closes a run.
pub const RUNNER_SCRIPT_10: &'static str = r#"

echo "$(date): Backup completed for profile "#;

/// The rest of the runner script.
pub const RUNNER_SCRIPT_11: &'static str = r#"" >> "$LOG_FILE"
"#;

/// The agent's description up to the profile's identifier, in its label.
pub const LAUNCH_AGENT_00: &'static str = r#"<?xml version="1.0" encoding="UTF-8"?>
<!DOCTYPE plist PUBLIC "-//Apple//DTD PLIST 1.0//EN" "http://www.apple.com/DTDs/PropertyList-1.0.dtd">
<plist version="1.0">
<dict>
    <key>Label</key>
    <string>com.cloudbackup.backup-"#;

/// From there to the path of the runner script.
pub const LAUNCH_AGENT_01: &'static str = r#"</string>
    <key>ProgramArguments</key>
    <array>
        <string>"#;

/// From there to the times at which the agent starts.
pub const LAUNCH_AGENT_02: &'static str = r#"</string>
    </array>
    <key>StartCalendarInterval</key>
    "#;

/// From there to the working directory.
pub const LAUNCH_AGENT_03: &'static str = r#"
    <key>WorkingDirectory</key>
    <string>"#;

/// From there to the profile's identifier, in the name of the output file.
pub const LAUNCH_AGENT_04: &'static str = r#"</string>
    <key>StandardOutPath</key>
    <string>/tmp/backup-"#;

/// From there to the profile's identifier, in the name of the error file.
pub const LAUNCH_AGENT_05: &'static str = r#".out</string>
    <key>StandardErrorPath</key>
    <string>/tmp/backup-"#;

/// The rest of the agent's description.
pub const LAUNCH_AGENT_06: &'static str = r#".err</string>
</dict>
</plist>"#;

/// The pieces of the command for one source, in order.
pub open spec fn backup_command_pieces() -> Seq<Seq<char>> {
    seq![
        BACKUP_COMMAND_00@,
        BACKUP_COMMAND_01@,
        BACKUP_COMMAND_02@,
        BACKUP_COMMAND_03@,
        BACKUP_COMMAND_04@,
        BACKUP_COMMAND_05@,
    ]
}

/// The lines of the runner script that back up `source`: one that tells of
/// it in the log, and one that calls the transfer tool.
pub open spec fn backup_command(
    source: Seq<char>,
    destination: Seq<char>,
    operation: Seq<char>,
    flags: Seq<char>,
) -> Seq<char> {
    filled(backup_command_pieces(), seq![source, operation, source, destination, flags])
}

/// The commands for `sources`, in order.
pub open spec fn backup_commands_of(
    sources: Seq<Seq<char>>,
    destination: Seq<char>,
    operation: Seq<char>,
    flags: Seq<char>,
) -> Seq<Seq<char>> {
    sources.map_values(|source: Seq<char>| backup_command(source, destination, operation, flags))
}

/// The commands that back up each of `sources`, with an empty line between
/// each two.
pub fn generate_backup_commands(
    sources: &[String],
    destination: &str,
    operation: &str,
    flags: &str,
) -> (commands: String)
    ensures
        commands@ == joined_with(
            backup_commands_of(string_texts(sources@), destination@, operation@, flags@),
            "\n\n"@,
        ),
{
    let mut commands: Vec<String> = Vec::new();
    let mut i: usize = 0;
    let ghost wanted = backup_commands_of(string_texts(sources@), destination@, operation@, flags@);
    assert(string_texts(commands@) =~= wanted.take(0));
    while i < sources.len()
        invariant
            i <= sources.len(),
            wanted == backup_commands_of(string_texts(sources@), destination@, operation@, flags@),
            string_texts(commands@) == wanted.take(i as int),
        decreases sources.len() - i,
    {
        let source = sources[i].as_str();
        let pieces: [&str; 6] = [
            BACKUP_COMMAND_00,
            BACKUP_COMMAND_01,
            BACKUP_COMMAND_02,
            BACKUP_COMMAND_03,
            BACKUP_COMMAND_04,
            BACKUP_COMMAND_05,
        ];
        let values: [&str; 5] = [source, operation, source, destination, flags];
        assert(str_texts(pieces@) =~= backup_command_pieces());
        assert(str_texts(values@) =~= seq![source@, operation@, source@, destination@, flags@]);
        let command = fill(pieces.as_slice(), values.as_slice());
        let ghost before = string_texts(commands@);
        commands.push(command);
        proof {
            assert(string_texts(commands@) =~= before.push(command@));
            assert(string_texts(sources@)[i as int] == sources@[i as int]@);
            assert(wanted.take(i + 1) =~= wanted.take(i as int).push(wanted[i as int]));
        }
        i = i + 1;
    }
    assert(wanted.take(sources.len() as int) =~= wanted);
    join(commands.as_slice(), "\n\n")
}

/// The pieces of the runner script, in order.
pub open spec fn runner_script_pieces() -> Seq<Seq<char>> {
    seq![
        RUNNER_SCRIPT_00@,
        RUNNER_SCRIPT_01@,
        RUNNER_SCRIPT_02@,
        RUNNER_SCRIPT_03@,
        RUNNER_SCRIPT_04@,
        RUNNER_SCRIPT_05@,
        RUNNER_SCRIPT_06@,
        RUNNER_SCRIPT_07@,
        RUNNER_SCRIPT_08@,
        RUNNER_SCRIPT_09@,
        RUNNER_SCRIPT_10@,
        RUNNER_SCRIPT_11@,
    ]
}

/// The script that backs up the sources of `profile`, written at
/// `written_at`: the pieces of the script with the profile's settings
/// between them. The flags stand in a row with spaces between.
pub open spec fn runner_script_text(profile: Profile, written_at: Seq<char>) -> Seq<char> {
    let destination = destination_of(profile.remote@, profile.bucket@, profile.prefix@);
    let operation = operation_word(profile.mode);
    let flags = joined_with(string_texts(profile.rclone_flags@), " "@);
    filled(
        runner_script_pieces(),
        seq![
            profile.name@,
            written_at,
            profile.rclone_bin@,
            profile.rclone_conf@,
            destination,
            operation,
            flags,
            profile.id@,
            profile.name@,
            joined_with(
                backup_commands_of(string_texts(profile.sources@), destination, operation, flags),
                "\n\n"@,
            ),
            profile.name@,
        ],
    )
}

/// Writes the script that backs up the sources of `profile` and keeps a
/// log of it. `written_at` is the time of writing, as it is to stand in
/// the script.
pub fn runner_script(profile: &Profile, written_at: &str) -> (script: String)
    ensures
        script@ == runner_script_text(*profile, written_at@),
{
    let destination = profile.destination();
    let operation = operation_name(profile.mode);
    let flags = join(profile.rclone_flags.as_slice(), " ");
    let commands = generate_backup_commands(
        profile.sources.as_slice(),
        destination.as_str(),
        operation,
        flags.as_str(),
    );
    let pieces: [&str; 12] = [
        RUNNER_SCRIPT_00,
        RUNNER_SCRIPT_01,
        RUNNER_SCRIPT_02,
        RUNNER_SCRIPT_03,
        RUNNER_SCRIPT_04,
        RUNNER_SCRIPT_05,
        RUNNER_SCRIPT_06,
        RUNNER_SCRIPT_07,
        RUNNER_SCRIPT_08,
        RUNNER_SCRIPT_09,
        RUNNER_SCRIPT_10,
        RUNNER_SCRIPT_11,
    ];
    let values: [&str; 11] = [
        profile.name.as_str(),
        written_at,
        profile.rclone_bin.as_str(),
        profile.rclone_conf.as_str(),
        destination.as_str(),
        operation,
        flags.as_str(),
        profile.id.as_str(),
        profile.name.as_str(),
        commands.as_str(),
        profile.name.as_str(),
    ];
    assert(str_texts(pieces@) =~= runner_script_pieces());
    assert(str_texts(values@) =~= seq![
        profile.name@,
        written_at@,
        profile.rclone_bin@,
        profile.rclone_conf@,
        destination@,
        operation@,
        flags@,
        profile.id@,
        profile.name@,
        commands@,
        profile.name@,
    ]);
    fill(pieces.as_slice(), values.as_slice())
}

/// The name of the runner script of the profile `profile_id`.
pub open spec fn runner_script_name_of(profile_id: Seq<char>) -> Seq<char> {
    "backup-"@ + profile_id + ".sh"@
}

/// The name of the runner script of the profile `profile_id`.
pub fn runner_script_name(profile_id: &str) -> (name: String)
    ensures
        name@ == runner_script_name_of(profile_id@),
{
    let mut name = String::from_str("backup-");
    name.append(profile_id);
    name.append(".sh");
    name
}

/// The name of the file that describes the agent of the profile
/// `profile_id`.
pub open spec fn launch_agent_name_of(profile_id: Seq<char>) -> Seq<char> {
    "com.cloudbackup.backup-"@ + profile_id + ".plist"@
}

/// The name of the file that describes the agent of the profile
/// `profile_id`.
pub fn launch_agent_name(profile_id: &str) -> (name: String)
    ensures
        name@ == launch_agent_name_of(profile_id@),
{
    let mut name = String::from_str("com.cloudbackup.backup-");
    name.append(profile_id);
    name.append(".plist");
    name
}

/// Where the agents of a user lie, seen from the user's home directory.
pub const LAUNCH_AGENTS_DIR: &'static str = "Library/LaunchAgents";

/// What is said when the operating system names no home directory.
pub const NO_HOME_DIR: &'static str = "Could not determine home directory";

/// The file that describes the agent of the profile `profile_id`, given
/// the user's home directory.
pub open spec fn launch_agent_path_in(home: Option<Seq<char>>, profile_id: Seq<char>) -> Result<
    Seq<char>,
    Seq<char>,
> {
    match home {
        Some(dir) => Ok(
            joined(joined(dir, LAUNCH_AGENTS_DIR@), launch_agent_name_of(profile_id)),
        ),
        None => Err(NO_HOME_DIR@),
    }
}

/// The file that describes the agent of the profile `profile_id`, for a
/// user whose home directory is `home`.
pub fn launch_agent_path_under(home: Option<String>, profile_id: &str) -> (path: Result<
    String,
    String,
>)
    ensures
        path_model(path) == launch_agent_path_in(text_model(home), profile_id@),
{
    match home {
        Some(dir) => {
            let agents = join_path(dir.as_str(), LAUNCH_AGENTS_DIR);
            let name = launch_agent_name(profile_id);
            Ok(join_path(agents.as_str(), name.as_str()))
        },
        None => Err(String::from_str(NO_HOME_DIR)),
    }
}

/// The file that describes the agent of the profile `profile_id`.
///
/// The operating system decides where the user's home lies, and whether
/// it lies anywhere.
pub fn launch_agent_path(profile_id: &str) -> (path: Result<String, String>)
    ensures
        exists|home: Option<Seq<char>>|
            path_model(path) == #[trigger] launch_agent_path_in(home, profile_id@),
{
    let home = user_home_dir();
    let path = launch_agent_path_under(home, profile_id);
    assert(path_model(path) == launch_agent_path_in(text_model(home), profile_id@));
    path
}

/// Where the logs of scheduled backups lie, seen from the user's home
/// directory: where the runner script puts them.
pub const LOG_DIR: &'static str = ".config/cloud-backup-app/logs";

/// The name of the log of the profile `profile_id`.
pub open spec fn log_file_name_of(profile_id: Seq<char>) -> Seq<char> {
    "backup-"@ + profile_id + ".log"@
}

/// The log that the runner script of the profile `profile_id` writes, given
/// the user's home directory.
pub open spec fn log_file_in(home: Option<Seq<char>>, profile_id: Seq<char>) -> Result<
    Seq<char>,
    Seq<char>,
> {
    match home {
        Some(dir) => Ok(joined(joined(dir, LOG_DIR@), log_file_name_of(profile_id))),
        None => Err(NO_HOME_DIR@),
    }
}

/// The log that the runner script of the profile `profile_id` writes, for
/// a user whose home directory is `home`.
pub fn log_file_under(home: Option<String>, profile_id: &str) -> (path: Result<String, String>)
    ensures
        path_model(path) == log_file_in(text_model(home), profile_id@),
{
    match home {
        Some(dir) => {
            let logs = join_path(dir.as_str(), LOG_DIR);
            let mut name = String::from_str("backup-");
            name.append(profile_id);
            name.append(".log");
            Ok(join_path(logs.as_str(), name.as_str()))
        },
        None => Err(String::from_str(NO_HOME_DIR)),
    }
}

/// The log that the runner script of the profile `profile_id` writes.
///
/// The operating system decides where the user's home lies, and whether
/// it lies anywhere.
pub fn log_file(profile_id: &str) -> (path: Result<String, String>)
    ensures
        exists|home: Option<Seq<char>>| path_model(path) == #[trigger] log_file_in(home, profile_id@),
{
    let home = user_home_dir();
    let path = log_file_under(home, profile_id);
    assert(path_model(path) == log_file_in(text_model(home), profile_id@));
    path
}

/// One entry of an agent's calendar: a key and a whole number.
pub open spec fn calendar_entry(key: Seq<char>, value: nat) -> Seq<char> {
    "<key>"@ + key + "</key><integer>"@ + decimal_text(value) + "</integer>"@
}

/// The times at which an agent starts, as a dictionary: the hour and the
/// minute, behind the day of the week or of the month where the frequency
/// names one.
pub open spec fn calendar_interval_of(frequency: ScheduleFrequency, time: Hms) -> Seq<char> {
    let clock = calendar_entry("Hour"@, time.hour as nat) + calendar_entry(
        "Minute"@,
        time.minute as nat,
    );
    match frequency {
        ScheduleFrequency::Daily => "<dict>"@ + clock + "</dict>"@,
        ScheduleFrequency::Weekly(day) => "<dict>"@ + calendar_entry("Weekday"@, day as nat) + clock
            + "</dict>"@,
        ScheduleFrequency::Monthly(day) => "<dict>"@ + calendar_entry("Day"@, day as nat) + clock
            + "</dict>"@,
    }
}

/// Writes one entry of an agent's calendar behind `out`.
fn push_calendar_entry(out: &mut String, key: &str, value: u64)
    ensures
        final(out)@ == old(out)@ + calendar_entry(key@, value as nat),
{
    let number = decimal_string(value);
    out.append("<key>");
    out.append(key);
    out.append("</key><integer>");
    out.append(number.as_str());
    out.append("</integer>");
    assert(out@ =~= old(out)@ + calendar_entry(key@, value as nat));
}

/// The times at which the agent of `schedule` starts. Fails if the
/// schedule's time of day cannot be read.
pub fn calendar_interval(schedule: &Schedule) -> (interval: Result<String, ScheduleError>)
    ensures
        match clock_fields_of(schedule.time@, time_format()) {
            None => interval == Err::<String, ScheduleError>(ScheduleError::InvalidTime),
            Some(fields) => interval matches Ok(text) && text@ == calendar_interval_of(
                schedule.frequency,
                Hms { hour: fields.0 as int, minute: fields.1 as int, second: fields.2 as int },
            ),
        },
{
    let time = match parse_schedule_time(schedule.time.as_str()) {
        Ok(time) => time,
        Err(error) => {
            return Err(error);
        },
    };
    let mut text = String::from_str("<dict>");
    match schedule.frequency {
        ScheduleFrequency::Daily => {},
        ScheduleFrequency::Weekly(day) => {
            push_calendar_entry(&mut text, "Weekday", day as u64);
        },
        ScheduleFrequency::Monthly(day) => {
            push_calendar_entry(&mut text, "Day", day as u64);
        },
    }
    let ghost before = text@;
    push_calendar_entry(&mut text, "Hour", time.hour() as u64);
    push_calendar_entry(&mut text, "Minute", time.minute() as u64);
    text.append("</dict>");
    proof {
        let clock = calendar_entry("Hour"@, time@.hour as nat) + calendar_entry(
            "Minute"@,
            time@.minute as nat,
        );
        assert(text@ =~= before + clock + "</dict>"@);
    }
    Ok(text)
}

/// The pieces of an agent's description, in order.
pub open spec fn launch_agent_pieces() -> Seq<Seq<char>> {
    seq![
        LAUNCH_AGENT_00@,
        LAUNCH_AGENT_01@,
        LAUNCH_AGENT_02@,
        LAUNCH_AGENT_03@,
        LAUNCH_AGENT_04@,
        LAUNCH_AGENT_05@,
        LAUNCH_AGENT_06@,
    ]
}

/// The description of the agent that runs `runner_script` for the profile
/// `profile_id` at the times of `interval`, in the directory
/// `working_directory`.
pub open spec fn launch_agent_text(
    profile_id: Seq<char>,
    runner_script: Seq<char>,
    interval: Seq<char>,
    working_directory: Seq<char>,
) -> Seq<char> {
    filled(
        launch_agent_pieces(),
        seq![profile_id, runner_script, interval, working_directory, profile_id, profile_id],
    )
}

/// Writes the description of the agent that runs `runner_script` for the
/// profile `profile_id` by `schedule`, in the directory
/// `working_directory`. Fails if the schedule's time of day cannot be read.
pub fn launch_agent(
    profile_id: &str,
    schedule: &Schedule,
    runner_script: &str,
    working_directory: &str,
) -> (agent: Result<String, ScheduleError>)
    ensures
        match clock_fields_of(schedule.time@, time_format()) {
            None => agent == Err::<String, ScheduleError>(ScheduleError::InvalidTime),
            Some(fields) => agent matches Ok(text) && text@ == launch_agent_text(
                profile_id@,
                runner_script@,
                calendar_interval_of(
                    schedule.frequency,
                    Hms { hour: fields.0 as int, minute: fields.1 as int, second: fields.2 as int },
                ),
                working_directory@,
            ),
        },
{
    let interval = match calendar_interval(schedule) {
        Ok(interval) => interval,
        Err(error) => {
            return Err(error);
        },
    };
    let pieces: [&str; 7] = [
        LAUNCH_AGENT_00,
        LAUNCH_AGENT_01,
        LAUNCH_AGENT_02,
        LAUNCH_AGENT_03,
        LAUNCH_AGENT_04,
        LAUNCH_AGENT_05,
        LAUNCH_AGENT_06,
    ];
    let values: [&str; 6] = [
        profile_id,
        runner_script,
        interval.as_str(),
        working_directory,
        profile_id,
        profile_id,
    ];
    assert(str_texts(pieces@) =~= launch_agent_pieces());
    assert(str_texts(values@) =~= seq![
        profile_id@,
        runner_script@,
        interval@,
        working_directory@,
        profile_id@,
        profile_id@,
    ]);
    Ok(fill(pieces.as_slice(), values.as_slice()))
}

/// What the agent manager is told to take up or to drop the agent that
/// `path` describes.
pub open spec fn agent_arguments(load: bool, path: Seq<char>) -> Seq<Seq<char>> {
    seq![if load {
        "load"@
    } else {
        "unload"@
    }, "-w"@, path]
}

/// The arguments that have the agent manager take up, or drop, the agent
/// that `path` describes.
pub fn agent_args(load: bool, path: &str) -> (args: Vec<String>)
    ensures
        string_texts(args@) == agent_arguments(load, path@),
{
    let mut args: Vec<String> = Vec::new();
    assert(string_texts(args@) =~= Seq::<Seq<char>>::empty());
    push_text(&mut args, if load {
        "load"
    } else {
        "unload"
    });
    push_text(&mut args, "-w");
    push_text(&mut args, path);
    assert(string_texts(args@) =~= agent_arguments(load, path@));
    args
}

/// What is said when the agent manager does not take up an agent.
pub open spec fn agent_failure(stderr: Seq<char>) -> Seq<char> {
    "Failed to load launch agent: "@ + stderr
}

/// What is said when the agent manager does not take up an agent.
pub fn agent_failure_message(stderr: &str) -> (message: String)
    ensures
        message@ == agent_failure(stderr@),
{
    let mut message = String::from_str("Failed to load launch agent: ");
    message.append(stderr);
    message
}

} // verus!
