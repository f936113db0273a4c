//! Backups and restores that the user starts by hand: what to ask of the
//! transfer tool, and what to make of its answers.
//!
//! Running the tool is not done here. A caller asks for the arguments, runs
//! the tool, and hands back what it printed; the functions of this module
//! keep the totals and say how the run ended.

use crate::compose::{decimal_string, decimal_text, string_texts};
use crate::models::{
    change_records_of, BackupMode, BackupOperation, BackupPreview, ChangeAction, ChangeRecord,
    FileChange, OperationRecord, OperationStatus, OperationType, Profile, ProfileType,
};
use crate::rclone_output::{
    copies_in, latest_bytes, parse_rclone_file_operations, parse_rclone_stats, stats_from,
};
use crate::text::{lines_of, string_of, to_chars};
use vstd::prelude::*;
use vstd::slice::slice_subrange;

verus! {

/// The word by which the transfer tool knows a mode of backup.
pub open spec fn operation_word(mode: BackupMode) -> Seq<char> {
    match mode {
        BackupMode::Copy => "copy"@,
        BackupMode::Sync => "sync"@,
    }
}

/// The word by which the transfer tool knows a mode of backup.
pub fn operation_name(mode: BackupMode) -> (word: &'static str)
    ensures
        word@ == operation_word(mode),
{
    match mode {
        BackupMode::Copy => "copy",
        BackupMode::Sync => "sync",
    }
}

/// Puts `text` behind the arguments gathered so far.
pub fn push_text(args: &mut Vec<String>, text: &str)
    ensures
        string_texts(final(args)@) == string_texts(old(args)@).push(text@),
{
    let ghost before = string_texts(args@);
    args.push(String::from_str(text));
    assert(string_texts(args@) =~= before.push(text@));
}

/// Puts each of `more` behind the arguments gathered so far.
pub fn push_all(args: &mut Vec<String>, more: &[String])
    ensures
        string_texts(final(args)@) == string_texts(old(args)@) + string_texts(more@),
{
    let ghost before = string_texts(args@);
    let mut i: usize = 0;
    assert(before + string_texts(more@).take(0) =~= before);
    while i < more.len()
        invariant
            i <= more.len(),
            string_texts(args@) == before + string_texts(more@).take(i as int),
        decreases more.len() - i,
    {
        push_text(args, more[i].as_str());
        assert(string_texts(more@).take(i + 1) =~= string_texts(more@).take(i as int).push(
            more@[i as int]@,
        ));
        assert(string_texts(args@) =~= before + string_texts(more@).take(i + 1));
        i = i + 1;
    }
    assert(string_texts(more@).take(more.len() as int) =~= string_texts(more@));
}

/// What the transfer tool is told for a backup of `source`.
pub open spec fn backup_arguments(
    operation: Seq<char>,
    source: Seq<char>,
    destination: Seq<char>,
    rclone_conf: Seq<char>,
    dry_run: bool,
    flags: Seq<Seq<char>>,
) -> Seq<Seq<char>> {
    seq![
        operation,
        source,
        destination,
        "--config"@,
        rclone_conf,
        "--progress"@,
        "--stats=1s"@,
        "--stats-one-line"@,
        "-v"@,
    ] + (if dry_run {
        seq!["--dry-run"@]
    } else {
        Seq::empty()
    }) + flags
}

/// The arguments for a backup of `source` to `destination`: the fixed
/// ones, `--dry-run` if it is a trial, and the profile's own flags last.
pub fn backup_args(
    operation: &str,
    source: &str,
    destination: &str,
    rclone_conf: &str,
    dry_run: bool,
    flags: &[String],
) -> (args: Vec<String>)
    ensures
        string_texts(args@) == backup_arguments(
            operation@,
            source@,
            destination@,
            rclone_conf@,
            dry_run,
            string_texts(flags@),
        ),
{
    let mut args: Vec<String> = Vec::new();
    assert(string_texts(args@) =~= Seq::<Seq<char>>::empty());
    push_text(&mut args, operation);
    push_text(&mut args, source);
    push_text(&mut args, destination);
    push_text(&mut args, "--config");
    push_text(&mut args, rclone_conf);
    push_text(&mut args, "--progress");
    push_text(&mut args, "--stats=1s");
    push_text(&mut args, "--stats-one-line");
    push_text(&mut args, "-v");
    if dry_run {
        push_text(&mut args, "--dry-run");
    }
    push_all(&mut args, flags);
    assert(string_texts(args@) =~= backup_arguments(
        operation@,
        source@,
        destination@,
        rclone_conf@,
        dry_run,
        string_texts(flags@),
    ));
    args
}

/// What the transfer tool is told for a preview of a backup of `source`.
pub open spec fn preview_arguments(
    operation: Seq<char>,
    source: Seq<char>,
    destination: Seq<char>,
    rclone_conf: Seq<char>,
    flags: Seq<Seq<char>>,
) -> Seq<Seq<char>> {
    seq![operation, source, destination, "--dry-run"@, "--stats=0"@, "--config"@, rclone_conf]
        + flags
}

/// The arguments for a preview of a backup of `source` to `destination`.
pub fn preview_args(
    operation: &str,
    source: &str,
    destination: &str,
    rclone_conf: &str,
    flags: &[String],
) -> (args: Vec<String>)
    ensures
        string_texts(args@) == preview_arguments(
            operation@,
            source@,
            destination@,
            rclone_conf@,
            string_texts(flags@),
        ),
{
    let mut args: Vec<String> = Vec::new();
    assert(string_texts(args@) =~= Seq::<Seq<char>>::empty());
    push_text(&mut args, operation);
    push_text(&mut args, source);
    push_text(&mut args, destination);
    push_text(&mut args, "--dry-run");
    push_text(&mut args, "--stats=0");
    push_text(&mut args, "--config");
    push_text(&mut args, rclone_conf);
    push_all(&mut args, flags);
    assert(string_texts(args@) =~= preview_arguments(
        operation@,
        source@,
        destination@,
        rclone_conf@,
        string_texts(flags@),
    ));
    args
}

/// What the transfer tool is told for a restore of `remote_path` to
/// `local_target`.
pub open spec fn restore_arguments(
    remote_path: Seq<char>,
    local_target: Seq<char>,
    rclone_conf: Seq<char>,
) -> Seq<Seq<char>> {
    seq![
        "copy"@,
        remote_path,
        local_target,
        "--config"@,
        rclone_conf,
        "--progress"@,
        "--stats=1s"@,
        "--stats-one-line"@,
        "-v"@,
        "--checksum"@,
        "--fast-list"@,
    ]
}

/// The arguments for a restore of `remote_path` to `local_target`.
pub fn restore_args(remote_path: &str, local_target: &str, rclone_conf: &str) -> (args: Vec<String>)
    ensures
        string_texts(args@) == restore_arguments(remote_path@, local_target@, rclone_conf@),
{
    let mut args: Vec<String> = Vec::new();
    assert(string_texts(args@) =~= Seq::<Seq<char>>::empty());
    push_text(&mut args, "copy");
    push_text(&mut args, remote_path);
    push_text(&mut args, local_target);
    push_text(&mut args, "--config");
    push_text(&mut args, rclone_conf);
    push_text(&mut args, "--progress");
    push_text(&mut args, "--stats=1s");
    push_text(&mut args, "--stats-one-line");
    push_text(&mut args, "-v");
    push_text(&mut args, "--checksum");
    push_text(&mut args, "--fast-list");
    assert(string_texts(args@) =~= restore_arguments(remote_path@, local_target@, rclone_conf@));
    args
}

/// What the transfer tool is told for a listing of `target`: all of it, or
/// down to a depth.
pub open spec fn listing_arguments(
    target: Seq<char>,
    rclone_conf: Seq<char>,
    max_depth: Option<u32>,
) -> Seq<Seq<char>> {
    seq!["lsjson"@, target, "--fast-list"@, "--config"@, rclone_conf] + (match max_depth {
        Some(depth) => seq!["--max-depth"@, decimal_text(depth as nat)],
        None => seq!["--recursive"@],
    })
}

/// The arguments for a listing of `target`.
pub fn listing_args(target: &str, rclone_conf: &str, max_depth: Option<u32>) -> (args: Vec<String>)
    ensures
        string_texts(args@) == listing_arguments(target@, rclone_conf@, max_depth),
{
    let mut args: Vec<String> = Vec::new();
    assert(string_texts(args@) =~= Seq::<Seq<char>>::empty());
    push_text(&mut args, "lsjson");
    push_text(&mut args, target);
    push_text(&mut args, "--fast-list");
    push_text(&mut args, "--config");
    push_text(&mut args, rclone_conf);
    match max_depth {
        Some(depth) => {
            push_text(&mut args, "--max-depth");
            let text = decimal_string(depth as u64);
            push_text(&mut args, text.as_str());
        },
        None => {
            push_text(&mut args, "--recursive");
        },
    }
    assert(string_texts(args@) =~= listing_arguments(target@, rclone_conf@, max_depth));
    args
}

/// `path` without the strokes at its start.
pub open spec fn without_leading_strokes(path: Seq<char>) -> Seq<char>
    decreases path.len(),
{
    if path.len() > 0 && path[0] == '/' {
        without_leading_strokes(path.skip(1))
    } else {
        path
    }
}

/// `path` below `base` in cloud storage: the two with one stroke between,
/// whatever strokes `path` begins with.
pub open spec fn remote_path_under(base: Seq<char>, path: Seq<char>) -> Seq<char> {
    base + seq!['/'] + without_leading_strokes(path)
}

/// `path` below `base` in cloud storage.
pub fn remote_path(base: &str, path: &str) -> (full: String)
    ensures
        full@ == remote_path_under(base@, path@),
{
    let chars = to_chars(path);
    let mut from: usize = 0;
    assert(chars@.skip(0) =~= chars@);
    while from < chars.len() && chars[from] == '/'
        invariant
            from <= chars.len(),
            without_leading_strokes(chars@) == without_leading_strokes(chars@.skip(from as int)),
        decreases chars.len() - from,
    {
        assert(chars@.skip(from as int).skip(1) =~= chars@.skip(from + 1));
        from = from + 1;
    }
    let rest = slice_subrange(chars.as_slice(), from, chars.len());
    assert(rest@ =~= chars@.skip(from as int));
    let tail = string_of(rest);
    proof {
        reveal_strlit("/");
        assert("/"@ =~= seq!['/']);
    }
    let mut full = String::from_str(base);
    full.append("/");
    full.append(tail.as_str());
    full
}

/// Where a listing for `profile` looks: an admin sees the whole bucket,
/// anyone else what lies under the profile's prefix; and below that the
/// path asked for, if one is.
pub open spec fn listing_target_of(profile: Profile, path: Option<Seq<char>>) -> Seq<char> {
    let base = if profile.profile_type == ProfileType::Admin {
        profile.remote@ + seq![':'] + profile.bucket@
    } else {
        crate::models::destination_of(profile.remote@, profile.bucket@, profile.prefix@)
    };
    match path {
        Some(below) => remote_path_under(base, below),
        None => base,
    }
}

/// Where a listing for `profile` looks.
pub fn listing_target(profile: &Profile, path: Option<&str>) -> (target: String)
    ensures
        target@ == listing_target_of(
            *profile,
            match path {
                Some(p) => Some(p@),
                None => None,
            },
        ),
{
    let base = match profile.profile_type {
        ProfileType::Admin => {
            proof {
                reveal_strlit(":");
                assert(":"@ =~= seq![':']);
            }
            let mut base = profile.remote.clone();
            base.append(":");
            base.append(profile.bucket.as_str());
            base
        },
        ProfileType::User => profile.destination(),
    };
    match path {
        Some(below) => remote_path(base.as_str(), below),
        None => base,
    }
}

/// What a run has printed and moved so far.
#[derive(Debug)]
pub struct TransferTotals {
    pub output: String,
    pub files: u64,
    pub bytes: u64,
}

/// What a run has printed and moved so far, as mathematical values: the
/// model of [`TransferTotals`].
pub struct Totals {
    pub output: Seq<char>,
    pub files: nat,
    pub bytes: nat,
}

impl View for TransferTotals {
    type V = Totals;

    open spec fn view(&self) -> Totals {
        Totals { output: self.output@, files: self.files as nat, bytes: self.bytes as nat }
    }
}

/// The sum of two counts, held at the largest 64-bit number.
pub open spec fn held_sum(a: nat, b: nat) -> nat {
    if a + b > u64::MAX {
        u64::MAX as nat
    } else {
        a + b
    }
}

/// The heading under which the output for one source of a backup stands.
pub open spec fn source_heading(source: Seq<char>) -> Seq<char> {
    "=== Source: "@ + source + " ===\n"@
}

/// The heading under which the output for one path of a restore stands.
pub open spec fn restore_heading(path: Seq<char>) -> Seq<char> {
    "=== Restoring: "@ + path + " ===\n"@
}

/// `totals` with one more section of output: the heading, what the tool
/// wrote to its output and to its error stream, and a line feed.
pub open spec fn with_section(
    totals: Totals,
    heading: Seq<char>,
    stdout: Seq<char>,
    stderr: Seq<char>,
) -> Totals {
    Totals {
        output: totals.output + heading + stdout + stderr + seq!['\n'],
        files: totals.files,
        bytes: totals.bytes,
    }
}

/// `totals` with what `stdout` reports added: the files it tells were
/// copied and the bytes of its latest report. An output that reports no
/// bytes adds nothing, not even its files.
pub open spec fn with_counts(totals: Totals, stdout: Seq<char>) -> Totals {
    match stats_from(latest_bytes(lines_of(stdout))) {
        Some(stats) => Totals {
            output: totals.output,
            files: held_sum(totals.files, copies_in(lines_of(stdout))),
            bytes: held_sum(totals.bytes, stats.1 as nat),
        },
        None => totals,
    }
}

/// What is said when the transfer tool fails on a source of a backup.
pub open spec fn backup_failure(operation: Seq<char>, source: Seq<char>, stderr: Seq<char>) -> Seq<
    char,
> {
    "rclone "@ + operation + " failed for "@ + source + ": "@ + stderr
}

/// What is said when the transfer tool fails on a path of a restore.
pub open spec fn restore_failure(remote_path: Seq<char>, stderr: Seq<char>) -> Seq<char> {
    "restore failed for "@ + remote_path + ": "@ + stderr
}

/// What is said when the transfer tool is not where it should be.
pub open spec fn missing_binary(path: Seq<char>) -> Seq<char> {
    "Rclone binary not found at path: "@ + path
}

/// What is said when a source of a backup does not exist.
pub open spec fn missing_source(path: Seq<char>) -> Seq<char> {
    "Source directory not found: "@ + path
}

/// What is said when the configuration of the transfer tool does not exist.
pub open spec fn missing_config(path: Seq<char>) -> Seq<char> {
    "Rclone config not found at path: "@ + path
}

/// How a step of a run ended.
#[derive(Debug)]
pub enum StepOutcome {
    /// The tool did its work: the run goes on with these totals.
    Continue(TransferTotals),
    /// The tool failed: the run ends with these totals and this message.
    Failed { totals: TransferTotals, message: String },
}

/// How a step of a run ended, as mathematical values: the model of
/// [`StepOutcome`].
pub enum StepModel {
    Continue(Totals),
    Failed { totals: Totals, message: Seq<char> },
}

impl View for StepOutcome {
    type V = StepModel;

    open spec fn view(&self) -> StepModel {
        match *self {
            StepOutcome::Continue(totals) => StepModel::Continue(totals@),
            StepOutcome::Failed { totals, message } => StepModel::Failed {
                totals: totals@,
                message: message@,
            },
        }
    }
}

/// What becomes of a backup after the tool has run on `source`. Its output
/// joins the output of the run. If the tool failed and the run is no
/// trial, the run has failed; else what the output reports is added to the
/// totals.
pub open spec fn after_source(
    totals: Totals,
    operation: Seq<char>,
    source: Seq<char>,
    stdout: Seq<char>,
    stderr: Seq<char>,
    success: bool,
    dry_run: bool,
) -> StepModel {
    let printed = with_section(totals, source_heading(source), stdout, stderr);
    if !success && !dry_run {
        StepModel::Failed { totals: printed, message: backup_failure(operation, source, stderr) }
    } else {
        StepModel::Continue(with_counts(printed, stdout))
    }
}

/// What becomes of a restore after the tool has run on `path`, which is
/// `remote_path` in full. Its output joins the output of the run. If the
/// tool failed, the run has failed; else what the output reports is added
/// to the totals.
pub open spec fn after_path(
    totals: Totals,
    path: Seq<char>,
    remote_path: Seq<char>,
    stdout: Seq<char>,
    stderr: Seq<char>,
    success: bool,
) -> StepModel {
    let printed = with_section(totals, restore_heading(path), stdout, stderr);
    if !success {
        StepModel::Failed { totals: printed, message: restore_failure(remote_path, stderr) }
    } else {
        StepModel::Continue(with_counts(printed, stdout))
    }
}

/// The record of a run that began at `started_at` and ended at `now`.
pub open spec fn run_record(
    id: Seq<char>,
    profile_id: Seq<char>,
    operation_type: OperationType,
    started_at: i64,
    now: i64,
    totals: Totals,
    error: Option<Seq<char>>,
) -> OperationRecord {
    OperationRecord {
        id,
        profile_id,
        operation_type,
        status: if error is Some {
            OperationStatus::Failed
        } else {
            OperationStatus::Completed
        },
        started_at: started_at as int,
        completed_at: Some(now as int),
        files_transferred: totals.files,
        bytes_transferred: totals.bytes,
        error_message: error,
        log_output: totals.output,
    }
}

/// The text made of three parts in a row.
fn three(a: &str, b: &str, c: &str) -> (s: String)
    ensures
        s@ == a@ + b@ + c@,
{
    let mut s = String::from_str(a);
    s.append(b);
    s.append(c);
    s
}

/// What is said when the transfer tool is not at `path`.
pub fn missing_binary_message(path: &str) -> (message: String)
    ensures
        message@ == missing_binary(path@),
{
    let mut message = String::from_str("Rclone binary not found at path: ");
    message.append(path);
    message
}

/// What is said when the source `path` of a backup does not exist.
pub fn missing_source_message(path: &str) -> (message: String)
    ensures
        message@ == missing_source(path@),
{
    let mut message = String::from_str("Source directory not found: ");
    message.append(path);
    message
}

/// What is said when the configuration of the transfer tool is not at
/// `path`.
pub fn missing_config_message(path: &str) -> (message: String)
    ensures
        message@ == missing_config(path@),
{
    let mut message = String::from_str("Rclone config not found at path: ");
    message.append(path);
    message
}

/// Tells whether the tool must be looked for before it is run: it need not
/// be when it is named as `rclone` alone, to be found by the system.
pub fn must_exist(rclone_binary: &str) -> (must: bool)
    ensures
        must == (rclone_binary@ != "rclone"@),
{
    let name = String::from_str(rclone_binary);
    let plain = String::from_str("rclone");
    !(name == plain)
}

impl TransferTotals {
    /// The totals of a run that has done nothing yet.
    pub fn new() -> (totals: TransferTotals)
        ensures
            totals@ == (Totals { output: Seq::empty(), files: 0, bytes: 0 }),
    {
        TransferTotals { output: String::new(), files: 0, bytes: 0 }
    }

    /// The totals with one more section of output.
    fn print(self, heading: &str, stdout: &str, stderr: &str) -> (next: TransferTotals)
        ensures
            next@ == with_section(self@, heading@, stdout@, stderr@),
    {
        proof {
            reveal_strlit("\n");
            assert("\n"@ =~= seq!['\n']);
        }
        let mut output = self.output;
        output.append(heading);
        output.append(stdout);
        output.append(stderr);
        output.append("\n");
        TransferTotals { output, files: self.files, bytes: self.bytes }
    }

    /// The totals with what `stdout` reports added.
    pub fn count(self, stdout: &str) -> (next: TransferTotals)
        ensures
            next@ == with_counts(self@, stdout@),
    {
        let copied = parse_rclone_file_operations(stdout).0;
        match parse_rclone_stats(stdout) {
            Some(stats) => TransferTotals {
                output: self.output,
                files: self.files.saturating_add(copied),
                bytes: self.bytes.saturating_add(stats.1),
            },
            None => self,
        }
    }

    /// What becomes of a backup after the tool has run on `source` and
    /// printed `stdout` and `stderr`.
    pub fn after_backup_of(
        self,
        operation: &str,
        source: &str,
        stdout: &str,
        stderr: &str,
        success: bool,
        dry_run: bool,
    ) -> (outcome: StepOutcome)
        ensures
            outcome@ == after_source(self@, operation@, source@, stdout@, stderr@, success, dry_run),
    {
        let heading = three("=== Source: ", source, " ===\n");
        let printed = self.print(heading.as_str(), stdout, stderr);
        if !success && !dry_run {
            let mut message = three("rclone ", operation, " failed for ");
            message.append(source);
            message.append(": ");
            message.append(stderr);
            StepOutcome::Failed { totals: printed, message }
        } else {
            StepOutcome::Continue(printed.count(stdout))
        }
    }

    /// What becomes of a restore after the tool has run on `path`, which is
    /// `remote_path` in full, and printed `stdout` and `stderr`.
    pub fn after_restore_of(
        self,
        path: &str,
        remote_path: &str,
        stdout: &str,
        stderr: &str,
        success: bool,
    ) -> (outcome: StepOutcome)
        ensures
            outcome@ == after_path(self@, path@, remote_path@, stdout@, stderr@, success),
    {
        let heading = three("=== Restoring: ", path, " ===\n");
        let printed = self.print(heading.as_str(), stdout, stderr);
        if !success {
            let mut message = three("restore failed for ", remote_path, ": ");
            message.append(stderr);
            StepOutcome::Failed { totals: printed, message }
        } else {
            StepOutcome::Continue(printed.count(stdout))
        }
    }

    /// The record of the run with these totals, which began at
    /// `started_at` and ended at `now`, failed if there is an error and
    /// completed if not.
    pub fn into_operation(
        self,
        id: String,
        profile_id: String,
        operation_type: OperationType,
        started_at: i64,
        now: i64,
        error: Option<String>,
    ) -> (operation: BackupOperation)
        ensures
            operation@ == run_record(
                id@,
                profile_id@,
                operation_type,
                started_at,
                now,
                self@,
                crate::models::text_model(error),
            ),
    {
        BackupOperation {
            id,
            profile_id,
            operation_type,
            status: if error.is_some() {
                OperationStatus::Failed
            } else {
                OperationStatus::Completed
            },
            started_at,
            completed_at: Some(now),
            files_transferred: self.files,
            bytes_transferred: self.bytes,
            error_message: error,
            log_output: self.output,
        }
    }
}

/// The changes among `changes` whose action is `action`, in order.
pub open spec fn with_action(changes: Seq<ChangeRecord>, action: ChangeAction) -> Seq<ChangeRecord> {
    changes.filter(|change: ChangeRecord| change.action == action)
}

/// The sizes of `changes` added up, held at the largest 64-bit number.
pub open spec fn total_size(changes: Seq<ChangeRecord>) -> nat
    decreases changes.len(),
{
    if changes.len() == 0 {
        0
    } else {
        held_sum(total_size(changes.drop_last()), changes.last().size)
    }
}

/// The changes of `changes` whose action is `action`, in order.
pub fn changes_with(changes: &[FileChange], action: ChangeAction) -> (found: Vec<FileChange>)
    ensures
        change_records_of(found@) == with_action(change_records_of(changes@), action),
{
    let ghost wanted = |change: ChangeRecord| change.action == action;
    let mut found: Vec<FileChange> = Vec::new();
    let mut i: usize = 0;
    proof {
        reveal(Seq::filter);
        assert(change_records_of(changes@).take(0) =~= Seq::<ChangeRecord>::empty());
        assert(change_records_of(found@) =~= Seq::<ChangeRecord>::empty());
    }
    while i < changes.len()
        invariant
            i <= changes.len(),
            wanted == (|change: ChangeRecord| change.action == action),
            change_records_of(found@) == change_records_of(changes@).take(i as int).filter(wanted),
        decreases changes.len() - i,
    {
        proof {
            let seen = change_records_of(changes@).take(i as int);
            assert(change_records_of(changes@).take(i + 1) =~= seen.push(changes@[i as int]@));
            seen.lemma_filter_push(changes@[i as int]@, wanted);
        }
        if changes[i].action == action {
            let ghost before = change_records_of(found@);
            let copy = FileChange {
                path: changes[i].path.clone(),
                size: changes[i].size,
                action: changes[i].action,
            };
            found.push(copy);
            assert(change_records_of(found@) =~= before.push(copy@));
        }
        i = i + 1;
    }
    assert(change_records_of(changes@).take(changes.len() as int) =~= change_records_of(changes@));
    found
}

/// What a backup would do, given every change that the tool announced: the
/// changes by kind, their number, and their sizes added up.
pub fn summarize_changes(changes: &[FileChange]) -> (preview: BackupPreview)
    ensures
        change_records_of(preview.files_to_copy@) == with_action(
            change_records_of(changes@),
            ChangeAction::Copy,
        ),
        change_records_of(preview.files_to_update@) == with_action(
            change_records_of(changes@),
            ChangeAction::Update,
        ),
        change_records_of(preview.files_to_delete@) == with_action(
            change_records_of(changes@),
            ChangeAction::Delete,
        ),
        preview.total_files == changes@.len(),
        preview.total_size == total_size(change_records_of(changes@)),
{
    let mut size: u64 = 0;
    let mut i: usize = 0;
    assert(change_records_of(changes@).take(0) =~= Seq::<ChangeRecord>::empty());
    while i < changes.len()
        invariant
            i <= changes.len(),
            size == total_size(change_records_of(changes@).take(i as int)),
        decreases changes.len() - i,
    {
        proof {
            let seen = change_records_of(changes@).take(i + 1);
            assert(seen.drop_last() =~= change_records_of(changes@).take(i as int));
            assert(seen.last() == changes@[i as int]@);
        }
        size = size.saturating_add(changes[i].size);
        i = i + 1;
    }
    assert(change_records_of(changes@).take(changes.len() as int) =~= change_records_of(changes@));
    BackupPreview {
        files_to_copy: changes_with(changes, ChangeAction::Copy),
        files_to_update: changes_with(changes, ChangeAction::Update),
        files_to_delete: changes_with(changes, ChangeAction::Delete),
        total_files: changes.len() as u64,
        total_size: size,
    }
}

} // verus!
