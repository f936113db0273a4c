//! The records that the application keeps: profiles, their cloud settings,
//! and what each backup run did.
//!
//! Instants are whole milliseconds since the start of 1970 in UTC.

use crate::compose::string_texts;
use crate::schedule::Schedule;
use crate::system::{fresh_id, utc_now_millis};
use vstd::prelude::*;

verus! {

/// Whether a tool that the application needs is installed.
#[derive(Clone, Debug)]
pub struct DependencyStatus {
    pub name: String,
    pub installed: bool,
    pub version: Option<String>,
    pub install_command: String,
}

/// Who a profile is for.
#[derive(Clone, Copy, Debug, PartialEq, Eq, Structural)]
pub enum ProfileType {
    Admin,
    User,
}

/// How long objects stay in each storage class.
#[derive(Clone, Debug)]
pub struct LifecycleConfig {
    pub enabled: bool,
    pub days_to_ia: u32,
    pub days_to_glacier: u32,
}

/// A user of the shared bucket, with keys of their own.
#[derive(Clone, Debug)]
pub struct Employee {
    pub id: String,
    pub name: String,
    pub username: String,
    pub access_key_id: String,
    pub secret_access_key: String,
    pub rclone_config_generated: bool,
    pub created_at: i64,
}

/// The cloud account behind an admin profile.
#[derive(Clone, Debug)]
pub struct AwsConfig {
    pub aws_access_key_id: String,
    pub aws_secret_access_key: String,
    pub aws_region: String,
    pub aws_sso_configured: bool,
    pub bucket_name: String,
    pub lifecycle_config: LifecycleConfig,
    pub employees: Vec<Employee>,
}

/// Whether a backup only adds to the destination or mirrors the source.
#[derive(Clone, Copy, Debug, PartialEq, Eq, Structural)]
pub enum BackupMode {
    Copy,
    Sync,
}

impl Default for BackupMode {
    fn default() -> (mode: BackupMode)
        ensures
            mode == BackupMode::Copy,
    {
        BackupMode::Copy
    }
}

/// A named backup configuration: what to back up, where to, and when.
#[derive(Clone, Debug)]
pub struct Profile {
    pub id: String,
    pub name: String,
    pub profile_type: ProfileType,
    pub rclone_bin: String,
    pub rclone_conf: String,
    pub remote: String,
    pub bucket: String,
    pub prefix: String,
    pub sources: Vec<String>,
    pub mode: BackupMode,
    pub schedule: Option<Schedule>,
    pub rclone_flags: Vec<String>,
    pub aws_config: Option<AwsConfig>,
    pub created_at: i64,
    pub updated_at: i64,
}

/// The name of the remote that a new profile backs up to.
pub const DEFAULT_REMOTE: &'static str = "aws";

/// The flags that a new profile hands to the transfer tool.
pub open spec fn default_flags() -> Seq<Seq<char>> {
    seq!["--checksum"@, "--fast-list"@, "--transfers=8"@, "--checkers=32"@]
}

/// Where a profile with these settings backs up to: the remote and the
/// bucket with a colon between, and the prefix behind a stroke if there is
/// one.
pub open spec fn destination_of(remote: Seq<char>, bucket: Seq<char>, prefix: Seq<char>) -> Seq<
    char,
> {
    if prefix.len() == 0 {
        remote + seq![':'] + bucket
    } else {
        remote + seq![':'] + bucket + seq!['/'] + prefix
    }
}

impl Profile {
    /// A profile named `name` with the settings that every profile starts
    /// with, a fresh identifier, and the current instant as the time of its
    /// making.
    pub fn new(name: String, profile_type: ProfileType) -> (profile: Profile)
        ensures
            profile.name == name,
            profile.profile_type == profile_type,
            profile.rclone_bin@.len() == 0,
            profile.rclone_conf@.len() == 0,
            profile.remote@ == DEFAULT_REMOTE@,
            profile.bucket@.len() == 0,
            profile.prefix@.len() == 0,
            profile.sources@.len() == 0,
            profile.mode == BackupMode::Copy,
            profile.schedule is None,
            string_texts(profile.rclone_flags@) == default_flags(),
            profile.aws_config is None,
            profile.created_at == profile.updated_at,
    {
        let now = utc_now_millis();
        let mut rclone_flags: Vec<String> = Vec::new();
        rclone_flags.push(String::from_str("--checksum"));
        rclone_flags.push(String::from_str("--fast-list"));
        rclone_flags.push(String::from_str("--transfers=8"));
        rclone_flags.push(String::from_str("--checkers=32"));
        assert(string_texts(rclone_flags@) =~= default_flags());
        Profile {
            id: fresh_id(),
            name,
            profile_type,
            rclone_bin: String::new(),
            rclone_conf: String::new(),
            remote: String::from_str(DEFAULT_REMOTE),
            bucket: String::new(),
            prefix: String::new(),
            sources: Vec::new(),
            mode: BackupMode::Copy,
            schedule: None,
            rclone_flags,
            aws_config: None,
            created_at: now,
            updated_at: now,
        }
    }

    /// Where this profile backs up to.
    pub fn destination(&self) -> (destination: String)
        ensures
            destination@ == destination_of(self.remote@, self.bucket@, self.prefix@),
    {
        proof {
            reveal_strlit(":");
            reveal_strlit("/");
            assert(":"@ =~= seq![':']);
            assert("/"@ =~= seq!['/']);
        }
        let mut destination = self.remote.clone();
        destination.append(":");
        destination.append(self.bucket.as_str());
        if !self.prefix.as_str().is_empty() {
            destination.append("/");
            destination.append(self.prefix.as_str());
        }
        destination
    }
}

/// An object or a directory in cloud storage.
#[derive(Clone, Debug)]
pub struct CloudFile {
    pub path: String,
    pub name: String,
    pub size: u64,
    pub mod_time: i64,
    pub is_dir: bool,
    pub mime_type: Option<String>,
}

/// What kind of run an operation was.
#[derive(Clone, Copy, Debug, PartialEq, Eq, Structural)]
pub enum OperationType {
    Backup,
    Restore,
    Preview,
}

/// How far a run has got.
#[derive(Clone, Copy, Debug, PartialEq, Eq, Structural)]
pub enum OperationStatus {
    Running,
    Completed,
    Failed,
    Cancelled,
}

/// One backup, restore or preview run.
#[derive(Clone, Debug)]
pub struct BackupOperation {
    pub id: String,
    pub profile_id: String,
    pub operation_type: OperationType,
    pub status: OperationStatus,
    pub started_at: i64,
    pub completed_at: Option<i64>,
    pub files_transferred: u64,
    pub bytes_transferred: u64,
    pub error_message: Option<String>,
    pub log_output: String,
}

/// A run as mathematical values: the model of [`BackupOperation`].
pub struct OperationRecord {
    pub id: Seq<char>,
    pub profile_id: Seq<char>,
    pub operation_type: OperationType,
    pub status: OperationStatus,
    pub started_at: int,
    pub completed_at: Option<int>,
    pub files_transferred: nat,
    pub bytes_transferred: nat,
    pub error_message: Option<Seq<char>>,
    pub log_output: Seq<char>,
}

/// The characters of an optional string.
pub open spec fn text_model(text: Option<String>) -> Option<Seq<char>> {
    match text {
        Some(s) => Some(s@),
        None => None,
    }
}

/// An optional instant as a mathematical integer.
pub open spec fn instant_model(at: Option<i64>) -> Option<int> {
    match at {
        Some(t) => Some(t as int),
        None => None,
    }
}

impl View for BackupOperation {
    type V = OperationRecord;

    open spec fn view(&self) -> OperationRecord {
        OperationRecord {
            id: self.id@,
            profile_id: self.profile_id@,
            operation_type: self.operation_type,
            status: self.status,
            started_at: self.started_at as int,
            completed_at: instant_model(self.completed_at),
            files_transferred: self.files_transferred as nat,
            bytes_transferred: self.bytes_transferred as nat,
            error_message: text_model(self.error_message),
            log_output: self.log_output@,
        }
    }
}

/// The models of a list of runs, in order.
pub open spec fn records(operations: Seq<BackupOperation>) -> Seq<OperationRecord> {
    operations.map_values(|operation: BackupOperation| operation@)
}

impl BackupOperation {
    /// A copy of this run that owns its strings.
    pub fn duplicate(&self) -> (copy: BackupOperation)
        ensures
            copy@ == self@,
    {
        BackupOperation {
            id: self.id.clone(),
            profile_id: self.profile_id.clone(),
            operation_type: self.operation_type,
            status: self.status,
            started_at: self.started_at,
            completed_at: self.completed_at,
            files_transferred: self.files_transferred,
            bytes_transferred: self.bytes_transferred,
            error_message: match &self.error_message {
                Some(message) => Some(message.clone()),
                None => None,
            },
            log_output: self.log_output.clone(),
        }
    }
}

/// What a backup would do to one file.
#[derive(Clone, Copy, Debug, PartialEq, Eq, Structural)]
pub enum ChangeAction {
    Copy,
    Update,
    Delete,
}

/// One file that a backup would touch.
#[derive(Clone, Debug)]
pub struct FileChange {
    pub path: String,
    pub size: u64,
    pub action: ChangeAction,
}

/// A file change as mathematical values: the model of [`FileChange`].
pub struct ChangeRecord {
    pub path: Seq<char>,
    pub size: nat,
    pub action: ChangeAction,
}

impl View for FileChange {
    type V = ChangeRecord;

    open spec fn view(&self) -> ChangeRecord {
        ChangeRecord { path: self.path@, size: self.size as nat, action: self.action }
    }
}

/// The models of a list of changes, in order.
pub open spec fn change_records_of(changes: Seq<FileChange>) -> Seq<ChangeRecord> {
    changes.map_values(|change: FileChange| change@)
}

/// What a backup would do, file by file.
#[derive(Clone, Debug)]
pub struct BackupPreview {
    pub files_to_copy: Vec<FileChange>,
    pub files_to_update: Vec<FileChange>,
    pub files_to_delete: Vec<FileChange>,
    pub total_files: u64,
    pub total_size: u64,
}

/// Everything the application keeps between runs.
#[derive(Clone, Debug)]
pub struct AppConfig {
    pub profiles: Vec<Profile>,
    pub active_profile_id: Option<String>,
    pub app_version: String,
    /// The history of runs, oldest first.
    pub backup_operations: Vec<BackupOperation>,
    pub created_at: i64,
    pub updated_at: i64,
}

/// The version that a new store is marked with.
pub const APP_VERSION: &'static str = "0.1.0";

impl Default for AppConfig {
    /// An empty store, made at the current instant.
    fn default() -> (config: AppConfig)
        ensures
            config.profiles@.len() == 0,
            config.active_profile_id is None,
            config.app_version@ == APP_VERSION@,
            config.backup_operations@.len() == 0,
            config.created_at == config.updated_at,
    {
        let now = utc_now_millis();
        AppConfig {
            profiles: Vec::new(),
            active_profile_id: None,
            app_version: String::from_str(APP_VERSION),
            backup_operations: Vec::new(),
            created_at: now,
            updated_at: now,
        }
    }
}

/// What one run of the transfer tool printed and how it ended.
#[derive(Debug)]
pub struct RcloneOutput {
    pub stdout: String,
    pub stderr: String,
    pub success: bool,
    pub exit_code: i32,
}

/// Progress of an installation, as shown to the user.
#[derive(Clone)]
pub struct DownloadProgress {
    pub downloaded: u64,
    pub total: Option<u64>,
    pub status: String,
}

/// Access keys of one user of the bucket.
#[derive(Clone, Debug)]
pub struct IAMCredentials {
    pub access_key_id: String,
    pub secret_access_key: String,
    pub region: String,
    pub iam_username: String,
    pub bucket: String,
    pub s3_prefix: String,
}

} // verus!
