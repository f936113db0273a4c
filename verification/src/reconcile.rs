//! Rebuilding the record of backup runs from the log that the runs leave.
//!
//! A run opens with a start line and closes with a completion line, or with
//! the end of the log. What stands between is its output. A closed run is
//! recorded unless the history already holds a run that started within a
//! minute of it; either way its start is reported, so that the schedule can
//! note when it last ran.

use crate::log_format::{classify, LineModel, LogLine, Markers};
use crate::models::{records, BackupOperation, OperationRecord, OperationStatus, OperationType};
use crate::system::{fresh_id, local_instant, utc_now_millis};
use crate::text::{lines_of, split_lines, string_of, texts, to_chars};
use vstd::prelude::*;

verus! {

/// Two runs whose starts lie less than this many milliseconds apart are
/// taken to be one run. It allows for the difference between the second
/// that the log shows and the instant that the clock gave when the run was
/// first recorded.
pub const DUPLICATE_WINDOW_MILLIS: i64 = 60_000;

/// The starts `a` and `b` lie within the window of one run.
pub open spec fn same_run(a: int, b: int) -> bool {
    -DUPLICATE_WINDOW_MILLIS < a - b < DUPLICATE_WINDOW_MILLIS
}

/// `existing` holds a run that started within the window of `started_at`.
pub open spec fn is_duplicate(existing: Seq<OperationRecord>, started_at: int) -> bool {
    exists|i: int| 0 <= i < existing.len() && same_run(#[trigger] existing[i].started_at, started_at)
}

/// What one line of a log means to the record, once the time zone has been
/// asked about its stamp.
pub enum EventModel {
    /// A run opens at `started_at`, to be known as `id`.
    Start { id: Seq<char>, started_at: int },
    /// A start line whose stamp gives no instant: it changes nothing.
    Skip,
    /// The open run, if any, closes.
    Completion,
    /// A line of output, with the counts it reports.
    Body { text: Seq<char>, files: Option<u64>, bytes: Option<u64> },
}

/// What one line of a log means to the record, once the time zone has been
/// asked about its stamp.
#[derive(Debug)]
pub enum LogEvent {
    /// A run opens at `started_at`, to be known as `id`.
    Start { id: String, started_at: i64 },
    /// A start line whose stamp gives no instant: it changes nothing.
    Skip,
    /// The open run, if any, closes.
    Completion,
    /// A line of output, with the counts it reports.
    Body { text: String, files: Option<u64>, bytes: Option<u64> },
}

impl View for LogEvent {
    type V = EventModel;

    open spec fn view(&self) -> EventModel {
        match *self {
            LogEvent::Start { id, started_at } => EventModel::Start {
                id: id@,
                started_at: started_at as int,
            },
            LogEvent::Skip => EventModel::Skip,
            LogEvent::Completion => EventModel::Completion,
            LogEvent::Body { text, files, bytes } => EventModel::Body { text: text@, files, bytes },
        }
    }
}

/// The models of a list of events, in order.
pub open spec fn event_models(events: Seq<LogEvent>) -> Seq<EventModel> {
    events.map_values(|event: LogEvent| event@)
}

/// A run that has opened and not yet closed.
pub struct OpenRun {
    pub id: Seq<char>,
    pub started_at: int,
    pub files: nat,
    pub bytes: nat,
    /// The lines of output so far, joined by line feeds; `None` before the
    /// first line.
    pub output: Option<Seq<char>>,
}

/// How far a pass over a log has got.
pub struct Progress {
    /// The run that is open, if one is.
    pub open: Option<OpenRun>,
    /// The runs recorded so far, in the order in which they closed.
    pub created: Seq<OperationRecord>,
    /// The start of every run closed so far, recorded or not.
    pub last_runs: Seq<int>,
}

/// What a pass over a log yields.
pub struct Outcome {
    /// The runs to add to the history.
    pub created: Seq<OperationRecord>,
    /// The start of every run that closed, as the schedule's last run.
    pub last_runs: Seq<int>,
}

/// Before the first line: nothing open, nothing recorded.
pub open spec fn beginning() -> Progress {
    Progress { open: None, created: Seq::empty(), last_runs: Seq::empty() }
}

/// The run that a start line opens.
pub open spec fn opened(id: Seq<char>, started_at: int) -> OpenRun {
    OpenRun { id, started_at, files: 0, bytes: 0, output: None }
}

/// `run` after a line of output. The line joins the output after a line
/// feed, or begins it. A count that the line reports replaces the count
/// held so far.
pub open spec fn absorbed(
    run: OpenRun,
    text: Seq<char>,
    files: Option<u64>,
    bytes: Option<u64>,
) -> OpenRun {
    OpenRun {
        id: run.id,
        started_at: run.started_at,
        files: match files {
            Some(n) => n as nat,
            None => run.files,
        },
        bytes: match bytes {
            Some(n) => n as nat,
            None => run.bytes,
        },
        output: Some(
            match run.output {
                Some(output) => output + seq!['\n'] + text,
                None => text,
            },
        ),
    }
}

/// The record of `run`, closed at `now`.
pub open spec fn completed(profile_id: Seq<char>, run: OpenRun, now: int) -> OperationRecord {
    OperationRecord {
        id: run.id,
        profile_id,
        operation_type: OperationType::Backup,
        status: OperationStatus::Completed,
        started_at: run.started_at,
        completed_at: Some(now),
        files_transferred: run.files,
        bytes_transferred: run.bytes,
        error_message: None,
        log_output: match run.output {
            Some(output) => output,
            None => Seq::empty(),
        },
    }
}

/// `progress` after the open run, if any, has closed at `now`. The run is
/// recorded unless `existing` holds its duplicate. Its start is reported in
/// either case.
pub open spec fn closed(
    progress: Progress,
    profile_id: Seq<char>,
    existing: Seq<OperationRecord>,
    now: int,
) -> Progress {
    match progress.open {
        None => progress,
        Some(run) => Progress {
            open: None,
            created: if is_duplicate(existing, run.started_at) {
                progress.created
            } else {
                progress.created.push(completed(profile_id, run, now))
            },
            last_runs: progress.last_runs.push(run.started_at),
        },
    }
}

/// `progress` after one more event.
///
/// A start opens a run in place of the one that was open, which is dropped
/// unrecorded. A completion closes the open run. A line of output joins the
/// open run. Without an open run, completions and output change nothing.
pub open spec fn step(
    progress: Progress,
    event: EventModel,
    profile_id: Seq<char>,
    existing: Seq<OperationRecord>,
    now: int,
) -> Progress {
    match event {
        EventModel::Start { id, started_at } => Progress {
            open: Some(opened(id, started_at)),
            created: progress.created,
            last_runs: progress.last_runs,
        },
        EventModel::Skip => progress,
        EventModel::Completion => closed(progress, profile_id, existing, now),
        EventModel::Body { text, files, bytes } => match progress.open {
            None => progress,
            Some(run) => Progress {
                open: Some(absorbed(run, text, files, bytes)),
                created: progress.created,
                last_runs: progress.last_runs,
            },
        },
    }
}

/// The progress after all of `events`, in order.
pub open spec fn run_events(
    events: Seq<EventModel>,
    profile_id: Seq<char>,
    existing: Seq<OperationRecord>,
    now: int,
) -> Progress
    decreases events.len(),
{
    if events.len() == 0 {
        beginning()
    } else {
        step(
            run_events(events.drop_last(), profile_id, existing, now),
            events.last(),
            profile_id,
            existing,
            now,
        )
    }
}

/// What a pass over `events` yields: a run that is still open at the end
/// closes there.
pub open spec fn replay(
    events: Seq<EventModel>,
    profile_id: Seq<char>,
    existing: Seq<OperationRecord>,
    now: int,
) -> Outcome {
    let end = closed(run_events(events, profile_id, existing, now), profile_id, existing, now);
    Outcome { created: end.created, last_runs: end.last_runs }
}

/// A run that has opened and not yet closed.
struct OpenOperation {
    id: String,
    started_at: i64,
    files: u64,
    bytes: u64,
    output: Option<String>,
}

impl View for OpenOperation {
    type V = OpenRun;

    closed spec fn view(&self) -> OpenRun {
        OpenRun {
            id: self.id@,
            started_at: self.started_at as int,
            files: self.files as nat,
            bytes: self.bytes as nat,
            output: match self.output {
                Some(output) => Some(output@),
                None => None,
            },
        }
    }
}

/// A pass over a log, fed line by line.
pub struct Reconciler {
    open: Option<OpenOperation>,
    created: Vec<BackupOperation>,
    last_runs: Vec<i64>,
}

impl View for Reconciler {
    type V = Progress;

    closed spec fn view(&self) -> Progress {
        Progress {
            open: match self.open {
                Some(run) => Some(run@),
                None => None,
            },
            created: records(self.created@),
            last_runs: self.last_runs@.map_values(|at: i64| at as int),
        }
    }
}

/// What a pass over a log yields.
#[derive(Debug)]
pub struct Reconciliation {
    /// The runs to add to the history, in the order in which they closed.
    pub new_operations: Vec<BackupOperation>,
    /// The start of every run that closed, recorded or not: each is to
    /// become the schedule's last run, in this order.
    pub last_runs: Vec<i64>,
}

impl View for Reconciliation {
    type V = Outcome;

    open spec fn view(&self) -> Outcome {
        Outcome {
            created: records(self.new_operations@),
            last_runs: self.last_runs@.map_values(|at: i64| at as int),
        }
    }
}

impl Reconciliation {
    /// How many runs the pass found that the history did not hold.
    pub fn new_count(&self) -> (count: usize)
        ensures
            count == self@.created.len(),
    {
        self.new_operations.len()
    }
}

/// Tells whether `existing` holds a run that started within the window of
/// `started_at`.
pub fn has_duplicate(existing: &[BackupOperation], started_at: i64) -> (found: bool)
    ensures
        found == is_duplicate(records(existing@), started_at as int),
{
    let mut i: usize = 0;
    while i < existing.len()
        invariant
            i <= existing.len(),
            forall|k: int|
                0 <= k < i ==> !same_run(
                    #[trigger] records(existing@)[k].started_at,
                    started_at as int,
                ),
        decreases existing.len() - i,
    {
        let apart: i128 = existing[i].started_at as i128 - started_at as i128;
        assert(records(existing@)[i as int].started_at == existing@[i as int].started_at);
        if -(DUPLICATE_WINDOW_MILLIS as i128) < apart && apart < DUPLICATE_WINDOW_MILLIS as i128 {
            return true;
        }
        i = i + 1;
    }
    false
}

impl Reconciler {
    /// A pass that has seen nothing yet.
    pub fn new() -> (pass: Reconciler)
        ensures
            pass@ == beginning(),
    {
        let pass = Reconciler { open: None, created: Vec::new(), last_runs: Vec::new() };
        assert(pass@.created =~= Seq::empty());
        assert(pass@.last_runs =~= Seq::empty());
        pass
    }

    /// Whether a run is open.
    pub fn is_open(&self) -> (open: bool)
        ensures
            open == self@.open is Some,
    {
        self.open.is_some()
    }

    /// The pass after a start line that opens the run `id` at `started_at`.
    pub fn begin(self, id: String, started_at: i64) -> (next: Reconciler)
        ensures
            forall|profile_id: Seq<char>, existing: Seq<OperationRecord>, now: int|
                next@ == #[trigger] step(
                    self@,
                    EventModel::Start { id: id@, started_at: started_at as int },
                    profile_id,
                    existing,
                    now,
                ),
    {
        Reconciler {
            open: Some(
                OpenOperation {
                    id,
                    started_at,
                    files: 0,
                    bytes: 0,
                    output: None,
                },
            ),
            created: self.created,
            last_runs: self.last_runs,
        }
    }

    /// The pass after the line of output `line`, which reports `files` and
    /// `bytes`.
    pub fn absorb(self, line: &[char], files: Option<u64>, bytes: Option<u64>) -> (next: Reconciler)
        ensures
            forall|profile_id: Seq<char>, existing: Seq<OperationRecord>, now: int|
                next@ == #[trigger] step(
                    self@,
                    EventModel::Body { text: line@, files, bytes },
                    profile_id,
                    existing,
                    now,
                ),
    {
        match self.open {
            None => Reconciler { open: None, created: self.created, last_runs: self.last_runs },
            Some(run) => {
                let text = string_of(line);
                let output = match run.output {
                    Some(so_far) => {
                        proof {
                            reveal_strlit("\n");
                            assert("\n"@ =~= seq!['\n']);
                        }
                        let mut joined = so_far;
                        joined.append("\n");
                        joined.append(text.as_str());
                        joined
                    },
                    None => text,
                };
                let after = OpenOperation {
                    id: run.id,
                    started_at: run.started_at,
                    files: match files {
                        Some(n) => n,
                        None => run.files,
                    },
                    bytes: match bytes {
                        Some(n) => n,
                        None => run.bytes,
                    },
                    output: Some(output),
                };
                Reconciler { open: Some(after), created: self.created, last_runs: self.last_runs }
            },
        }
    }

    /// The pass after the open run, if any, has closed at `now`.
    pub fn complete(self, profile_id: &str, existing: &[BackupOperation], now: i64) -> (next:
        Reconciler)
        ensures
            next@ == closed(self@, profile_id@, records(existing@), now as int),
    {
        match self.open {
            None => Reconciler { open: None, created: self.created, last_runs: self.last_runs },
            Some(run) => {
                let mut created = self.created;
                let mut last_runs = self.last_runs;
                let ghost before = records(created@);
                let ghost starts = last_runs@.map_values(|at: i64| at as int);
                last_runs.push(run.started_at);
                assert(last_runs@.map_values(|at: i64| at as int) =~= starts.push(
                    run.started_at as int,
                ));
                if !has_duplicate(existing, run.started_at) {
                    let operation = BackupOperation {
                        id: run.id,
                        profile_id: String::from_str(profile_id),
                        operation_type: OperationType::Backup,
                        status: OperationStatus::Completed,
                        started_at: run.started_at,
                        completed_at: Some(now),
                        files_transferred: run.files,
                        bytes_transferred: run.bytes,
                        error_message: None,
                        log_output: match run.output {
                            Some(output) => output,
                            None => String::new(),
                        },
                    };
                    assert(operation@ == completed(profile_id@, run@, now as int));
                    created.push(operation);
                    assert(records(created@) =~= before.push(operation@));
                }
                Reconciler { open: None, created, last_runs }
            },
        }
    }

    /// The pass after `event`.
    pub fn feed(self, event: &LogEvent, profile_id: &str, existing: &[BackupOperation], now: i64) -> (next:
        Reconciler)
        ensures
            next@ == step(self@, event@, profile_id@, records(existing@), now as int),
    {
        match event {
            LogEvent::Start { id, started_at } => self.begin(id.clone(), *started_at),
            LogEvent::Skip => self,
            LogEvent::Completion => self.complete(profile_id, existing, now),
            LogEvent::Body { text, files, bytes } => {
                let line = to_chars(text.as_str());
                self.absorb(line.as_slice(), *files, *bytes)
            },
        }
    }

    /// What the pass yields when the log ends at `now`: a run that is still
    /// open closes there.
    pub fn finish(self, profile_id: &str, existing: &[BackupOperation], now: i64) -> (outcome:
        Reconciliation)
        ensures
            outcome@.created == closed(self@, profile_id@, records(existing@), now as int).created,
            outcome@.last_runs == closed(
                self@,
                profile_id@,
                records(existing@),
                now as int,
            ).last_runs,
    {
        let end = self.complete(profile_id, existing, now);
        Reconciliation { new_operations: end.created, last_runs: end.last_runs }
    }
}

/// Runs a pass over `events` for the profile `profile_id`, whose history
/// holds `existing`, at the instant `now`.
pub fn replay_events(
    profile_id: &str,
    events: &[LogEvent],
    existing: &[BackupOperation],
    now: i64,
) -> (outcome: Reconciliation)
    ensures
        outcome@ == replay(event_models(events@), profile_id@, records(existing@), now as int),
{
    let mut pass = Reconciler::new();
    let mut i: usize = 0;
    assert(event_models(events@).take(0) =~= Seq::<EventModel>::empty());
    while i < events.len()
        invariant
            i <= events.len(),
            pass@ == run_events(
                event_models(events@).take(i as int),
                profile_id@,
                records(existing@),
                now as int,
            ),
        decreases events.len() - i,
    {
        proof {
            let done = event_models(events@).take(i + 1);
            assert(done.drop_last() =~= event_models(events@).take(i as int));
            assert(done.last() == events@[i as int]@);
        }
        pass = pass.feed(&events[i], profile_id, existing, now);
        i = i + 1;
    }
    assert(event_models(events@).take(events.len() as int) =~= event_models(events@));
    pass.finish(profile_id, existing, now)
}

/// `event` is what `line` can mean. A start line with a readable stamp
/// opens a run if the time zone gives its stamp an instant, and is skipped
/// if not; one with an unreadable stamp is skipped. A completion line
/// closes. Any other line is output, with the counts read from it.
pub open spec fn event_fits(line: Seq<char>, event: EventModel) -> bool {
    match classify(line) {
        LineModel::Start(None) => event is Skip,
        LineModel::Start(Some(_)) => event is Skip || event is Start,
        LineModel::Completion => event is Completion,
        LineModel::Body { files, bytes } => event == (EventModel::Body { text: line, files, bytes }),
    }
}

/// `events` are what `lines` can mean, line by line.
pub open spec fn events_fit(lines: Seq<Seq<char>>, events: Seq<EventModel>) -> bool {
    lines.len() == events.len() && forall|i: int|
        0 <= i < lines.len() ==> event_fits(#[trigger] lines[i], events[i])
}

/// `outcome` is what a pass over the log `log_text` can yield for the
/// profile `profile_id`, whose history holds `existing`: the replay of
/// events that fit the lines of the log, at some instant.
pub open spec fn is_reconciliation(
    profile_id: Seq<char>,
    log_text: Seq<char>,
    existing: Seq<OperationRecord>,
    outcome: Outcome,
) -> bool {
    exists|events: Seq<EventModel>, now: int|
        events_fit(lines_of(log_text), events) && outcome == #[trigger] replay(
            events,
            profile_id,
            existing,
            now,
        )
}

/// Reads the log `log_text` of the profile `profile_id` and tells which
/// runs it records that `existing`, the profile's history, does not hold.
///
/// The stamps of the log are taken as local time and turned into instants
/// by the system's time zone; each run found gets a fresh identifier and is
/// closed at the current instant. An empty log yields nothing.
pub fn reconcile(profile_id: &str, log_text: &str, existing: &[BackupOperation]) -> (outcome:
    Reconciliation)
    ensures
        is_reconciliation(profile_id@, log_text@, records(existing@), outcome@),
{
    let chars = to_chars(log_text);
    let lines = split_lines(chars.as_slice());
    let markers = Markers::new();
    let now = utc_now_millis();
    let mut pass = Reconciler::new();
    let ghost mut events: Seq<EventModel> = Seq::empty();
    let mut i: usize = 0;
    assert(texts(lines@).len() == lines@.len());
    while i < lines.len()
        invariant
            i <= lines.len(),
            texts(lines@) == lines_of(log_text@),
            events.len() == i,
            forall|k: int| 0 <= k < i ==> event_fits(#[trigger] texts(lines@)[k], events[k]),
            pass@ == run_events(events, profile_id@, records(existing@), now as int),
        decreases lines.len() - i,
    {
        let line = lines[i];
        assert(texts(lines@)[i as int] == line@);
        let ghost before = pass@;
        let ghost event;
        match markers.classify(line) {
            LogLine::Start(None) => {
                proof {
                    event = EventModel::Skip;
                }
            },
            LogLine::Start(Some(stamp)) => {
                let at = local_instant(
                    stamp.date.year(),
                    stamp.date.month(),
                    stamp.date.day(),
                    stamp.time.hour(),
                    stamp.time.minute(),
                    stamp.time.second(),
                );
                match at {
                    Some(started_at) => {
                        let id = fresh_id();
                        proof {
                            event = EventModel::Start { id: id@, started_at: started_at as int };
                        }
                        pass = pass.begin(id, started_at);
                    },
                    None => {
                        proof {
                            event = EventModel::Skip;
                        }
                    },
                }
            },
            LogLine::Completion => {
                proof {
                    event = EventModel::Completion;
                }
                pass = pass.complete(profile_id, existing, now);
            },
            LogLine::Body { files, bytes } => {
                proof {
                    event = EventModel::Body { text: line@, files, bytes };
                }
                pass = pass.absorb(line, files, bytes);
            },
        }
        proof {
            assert(pass@ == step(before, event, profile_id@, records(existing@), now as int));
            let longer = events.push(event);
            assert(longer.drop_last() =~= events);
            assert(longer.last() == event);
            events = longer;
        }
        i = i + 1;
    }
    let outcome = pass.finish(profile_id, existing, now);
    proof {
        assert(outcome@ == replay(events, profile_id@, records(existing@), now as int));
        assert(events_fit(lines_of(log_text@), events));
    }
    outcome
}

/// Two events mean the same to the record but for the identifier that a
/// run is given.
pub open spec fn same_but_for_id(a: EventModel, b: EventModel) -> bool {
    match a {
        EventModel::Start { id: _, started_at } => b matches EventModel::Start {
            id: _,
            started_at: other,
        } && other == started_at,
        _ => a == b,
    }
}

/// Two readings of one log: event by event the same but for the
/// identifiers.
pub open spec fn same_log(a: Seq<EventModel>, b: Seq<EventModel>) -> bool {
    a.len() == b.len() && forall|i: int|
        0 <= i < a.len() ==> same_but_for_id(#[trigger] a[i], b[i])
}

/// `shorter` is the beginning of `longer`.
pub open spec fn begins(shorter: Seq<OperationRecord>, longer: Seq<OperationRecord>) -> bool {
    shorter.len() <= longer.len() && forall|i: int|
        0 <= i < shorter.len() ==> #[trigger] shorter[i] == longer[i]
}

/// `history` holds every run of `runs`, wherever in it.
pub open spec fn holds_all(history: Seq<OperationRecord>, runs: Seq<OperationRecord>) -> bool {
    forall|i: int| 0 <= i < runs.len() ==> history.contains(#[trigger] runs[i])
}

/// A history that holds all of some runs holds a duplicate wherever they
/// do.
proof fn lemma_duplicate_carries(
    history: Seq<OperationRecord>,
    runs: Seq<OperationRecord>,
    started_at: int,
)
    requires
        holds_all(history, runs),
        is_duplicate(runs, started_at),
    ensures
        is_duplicate(history, started_at),
{
    let i = choose|i: int| 0 <= i < runs.len() && same_run(#[trigger] runs[i].started_at, started_at);
    assert(history.contains(runs[i]));
    let j = choose|j: int| 0 <= j < history.len() && history[j] == runs[i];
    assert(same_run(history[j].started_at, started_at));
}

/// A history that holds a duplicate still holds it when more runs are
/// written behind it.
proof fn lemma_duplicate_stays(
    existing: Seq<OperationRecord>,
    shorter: Seq<OperationRecord>,
    longer: Seq<OperationRecord>,
    started_at: int,
)
    requires
        begins(shorter, longer),
        is_duplicate(existing + shorter, started_at),
    ensures
        is_duplicate(existing + longer, started_at),
{
    let i = choose|i: int|
        0 <= i < (existing + shorter).len() && same_run(
            #[trigger] (existing + shorter)[i].started_at,
            started_at,
        );
    assert((existing + longer)[i] == (existing + shorter)[i]);
    assert(same_run((existing + longer)[i].started_at, started_at));
}

/// Once a run has closed, the history together with what the pass has
/// recorded holds a run with its start.
proof fn lemma_closed_run_is_held(
    progress: Progress,
    profile_id: Seq<char>,
    existing: Seq<OperationRecord>,
    now: int,
)
    requires
        progress.open is Some,
    ensures
        is_duplicate(
            existing + closed(progress, profile_id, existing, now).created,
            progress.open->0.started_at,
        ),
        begins(progress.created, closed(progress, profile_id, existing, now).created),
{
    let run = progress.open->0;
    let after = closed(progress, profile_id, existing, now).created;
    if is_duplicate(existing, run.started_at) {
        let i = choose|i: int|
            0 <= i < existing.len() && same_run(#[trigger] existing[i].started_at, run.started_at);
        assert((existing + after)[i] == existing[i]);
        assert(same_run((existing + after)[i].started_at, run.started_at));
    } else {
        let at = (existing.len() + progress.created.len()) as int;
        assert((existing + after)[at] == completed(profile_id, run, now));
        assert(same_run((existing + after)[at].started_at, run.started_at));
    }
}

/// What a step has recorded begins with what was recorded before it.
proof fn lemma_step_keeps_created(
    progress: Progress,
    event: EventModel,
    profile_id: Seq<char>,
    existing: Seq<OperationRecord>,
    now: int,
)
    ensures
        begins(progress.created, step(progress, event, profile_id, existing, now).created),
        begins(progress.created, closed(progress, profile_id, existing, now).created),
{
}

/// What a pass yields begins with what it had recorded after any number of
/// its events.
proof fn lemma_created_grows(
    events: Seq<EventModel>,
    profile_id: Seq<char>,
    existing: Seq<OperationRecord>,
    now: int,
    done: int,
)
    requires
        0 <= done <= events.len(),
    ensures
        begins(
            run_events(events.take(done), profile_id, existing, now).created,
            replay(events, profile_id, existing, now).created,
        ),
    decreases events.len() - done,
{
    let here = run_events(events.take(done), profile_id, existing, now);
    if done == events.len() {
        assert(events.take(done) =~= events);
        lemma_step_keeps_created(here, EventModel::Skip, profile_id, existing, now);
    } else {
        lemma_created_grows(events, profile_id, existing, now, done + 1);
        assert(events.take(done + 1).drop_last() =~= events.take(done));
        lemma_step_keeps_created(here, events[done], profile_id, existing, now);
    }
}

/// After the same number of events, a second pass over a log whose first
/// pass is in the history has recorded nothing, and has the same run open
/// as the first pass had.
proof fn lemma_second_pass(
    first: Seq<EventModel>,
    second: Seq<EventModel>,
    profile_id: Seq<char>,
    existing: Seq<OperationRecord>,
    grown: Seq<OperationRecord>,
    now: int,
    later: int,
    done: int,
)
    requires
        same_log(first, second),
        holds_all(grown, existing + replay(first, profile_id, existing, now).created),
        0 <= done <= first.len(),
    ensures
        ({
            let one = run_events(first.take(done), profile_id, existing, now);
            let two = run_events(second.take(done), profile_id, grown, later);
            &&& two.created.len() == 0
            &&& one.open is Some <==> two.open is Some
            &&& one.open is Some ==> one.open->0.started_at == two.open->0.started_at
        }),
    decreases done,
{
    if done > 0 {
        lemma_second_pass(first, second, profile_id, existing, grown, now, later, done - 1);
        let yielded = replay(first, profile_id, existing, now).created;
        let before_one = run_events(first.take(done - 1), profile_id, existing, now);
        let before_two = run_events(second.take(done - 1), profile_id, grown, later);
        assert(first.take(done).drop_last() =~= first.take(done - 1));
        assert(second.take(done).drop_last() =~= second.take(done - 1));
        assert(same_but_for_id(first[done - 1], second[done - 1]));
        if first[done - 1] is Completion && before_one.open is Some {
            let one = run_events(first.take(done), profile_id, existing, now);
            let started_at = before_one.open->0.started_at;
            lemma_closed_run_is_held(before_one, profile_id, existing, now);
            lemma_created_grows(first, profile_id, existing, now, done);
            lemma_duplicate_stays(existing, one.created, yielded, started_at);
            lemma_duplicate_carries(grown, existing + yielded, started_at);
        }
    }
}

/// Reading a log again adds nothing: if the history holds what it held
/// before a first pass over a log and what that pass yielded, in whatever
/// order and among whatever else, a second pass over the same log, at
/// whatever later instant and with whatever identifiers, records no run.
/// The two passes are taken to read the same starts: the time zone gives
/// each stamp the same instant both times.
pub proof fn law_second_pass_adds_nothing(
    first: Seq<EventModel>,
    second: Seq<EventModel>,
    profile_id: Seq<char>,
    existing: Seq<OperationRecord>,
    grown: Seq<OperationRecord>,
    now: int,
    later: int,
)
    requires
        same_log(first, second),
        holds_all(grown, existing + replay(first, profile_id, existing, now).created),
    ensures
        replay(second, profile_id, grown, later).created.len() == 0,
{
    let yielded = replay(first, profile_id, existing, now).created;
    let end_one = run_events(first, profile_id, existing, now);
    lemma_second_pass(first, second, profile_id, existing, grown, now, later, first.len() as int);
    assert(first.take(first.len() as int) =~= first);
    assert(second.take(first.len() as int) =~= second);
    if end_one.open is Some {
        lemma_closed_run_is_held(end_one, profile_id, existing, now);
        lemma_duplicate_carries(grown, existing + yielded, end_one.open->0.started_at);
    }
}

/// The history with what a first pass yielded written behind it is such a
/// history: a second pass over the same log then records no run.
pub proof fn law_second_pass_after_appending(
    first: Seq<EventModel>,
    second: Seq<EventModel>,
    profile_id: Seq<char>,
    existing: Seq<OperationRecord>,
    now: int,
    later: int,
)
    requires
        same_log(first, second),
    ensures
        replay(
            second,
            profile_id,
            existing + replay(first, profile_id, existing, now).created,
            later,
        ).created.len() == 0,
{
    let grown = existing + replay(first, profile_id, existing, now).created;
    assert forall|i: int| 0 <= i < grown.len() implies grown.contains(#[trigger] grown[i]) by {
    }
    law_second_pass_adds_nothing(first, second, profile_id, existing, grown, now, later);
}

/// A line that is skipped changes nothing: a pass yields the same with a
/// skipped line put anywhere among its events.
pub proof fn law_skipped_line_changes_nothing(
    events: Seq<EventModel>,
    at: int,
    profile_id: Seq<char>,
    existing: Seq<OperationRecord>,
    now: int,
)
    requires
        0 <= at <= events.len(),
    ensures
        run_events(events.insert(at, EventModel::Skip), profile_id, existing, now) == run_events(
            events,
            profile_id,
            existing,
            now,
        ),
        replay(events.insert(at, EventModel::Skip), profile_id, existing, now) == replay(
            events,
            profile_id,
            existing,
            now,
        ),
    decreases events.len(),
{
    let with_skip = events.insert(at, EventModel::Skip);
    if at == events.len() {
        assert(with_skip.drop_last() =~= events);
    } else {
        law_skipped_line_changes_nothing(events.drop_last(), at, profile_id, existing, now);
        assert(with_skip.drop_last() =~= events.drop_last().insert(at, EventModel::Skip));
        assert(with_skip.last() == events.last());
    }
}

/// Every run that a pass records is new to the history: none of them
/// started within the window of a run that the history holds.
pub proof fn law_recorded_runs_are_new(
    events: Seq<EventModel>,
    profile_id: Seq<char>,
    existing: Seq<OperationRecord>,
    now: int,
)
    ensures
        forall|i: int|
            0 <= i < replay(events, profile_id, existing, now).created.len() ==> !is_duplicate(
                existing,
                #[trigger] replay(events, profile_id, existing, now).created[i].started_at,
            ),
{
    lemma_recorded_so_far_is_new(events, profile_id, existing, now);
}

/// Every run that a pass records belongs to the profile of the pass, and
/// is a completed backup.
pub proof fn law_recorded_runs_belong_to_the_profile(
    events: Seq<EventModel>,
    profile_id: Seq<char>,
    existing: Seq<OperationRecord>,
    now: int,
)
    ensures
        forall|i: int|
            0 <= i < replay(events, profile_id, existing, now).created.len() ==> {
                let run = #[trigger] replay(events, profile_id, existing, now).created[i];
                &&& run.profile_id == profile_id
                &&& run.operation_type == OperationType::Backup
                &&& run.status == OperationStatus::Completed
                &&& run.completed_at == Some(now)
            },
{
    lemma_recorded_so_far_belongs(events, profile_id, existing, now);
}

/// At every point of a pass the runs recorded belong to its profile.
proof fn lemma_recorded_so_far_belongs(
    events: Seq<EventModel>,
    profile_id: Seq<char>,
    existing: Seq<OperationRecord>,
    now: int,
)
    ensures
        forall|i: int|
            0 <= i < run_events(events, profile_id, existing, now).created.len() ==> {
                let run = #[trigger] run_events(events, profile_id, existing, now).created[i];
                &&& run.profile_id == profile_id
                &&& run.operation_type == OperationType::Backup
                &&& run.status == OperationStatus::Completed
                &&& run.completed_at == Some(now)
            },
        forall|i: int|
            0 <= i < replay(events, profile_id, existing, now).created.len() ==> {
                let run = #[trigger] replay(events, profile_id, existing, now).created[i];
                &&& run.profile_id == profile_id
                &&& run.operation_type == OperationType::Backup
                &&& run.status == OperationStatus::Completed
                &&& run.completed_at == Some(now)
            },
    decreases events.len(),
{
    if events.len() > 0 {
        lemma_recorded_so_far_belongs(events.drop_last(), profile_id, existing, now);
    }
}

/// At no point of a pass has a duplicate been recorded.
proof fn lemma_recorded_so_far_is_new(
    events: Seq<EventModel>,
    profile_id: Seq<char>,
    existing: Seq<OperationRecord>,
    now: int,
)
    ensures
        forall|i: int|
            0 <= i < run_events(events, profile_id, existing, now).created.len() ==> !is_duplicate(
                existing,
                #[trigger] run_events(events, profile_id, existing, now).created[i].started_at,
            ),
        forall|i: int|
            0 <= i < replay(events, profile_id, existing, now).created.len() ==> !is_duplicate(
                existing,
                #[trigger] replay(events, profile_id, existing, now).created[i].started_at,
            ),
    decreases events.len(),
{
    if events.len() > 0 {
        lemma_recorded_so_far_is_new(events.drop_last(), profile_id, existing, now);
    }
}

} // verus!
