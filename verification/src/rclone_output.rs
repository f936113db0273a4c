//! What the transfer tool prints, read for what it did or would do.

use crate::byte_size::{byte_size_of, parse_byte_size};
use crate::models::{change_records_of, text_model, ChangeAction, ChangeRecord, FileChange};
use crate::pattern::{capture_of, captured};
use crate::text::{
    contains, includes, lines_of, split, split_lines, split_on, string_of, texts, to_chars,
};
use vstd::prelude::*;

verus! {

/// The expression for a progress line such as
/// `1.234 MiB / 2.468 MiB, 50%, 1.5 MiB/s, ETA 1s`; its first group is the
/// size moved so far.
pub open spec fn progress_pattern() -> Seq<char> {
    "^\\s*([0-9.,]+\\s*[KMGT]?i?B)\\s*/\\s*([0-9.,]+\\s*[KMGT]?i?B)\\s*,\\s*(\\d+)%"@
}

/// The expression for a report that begins with `Transferred:`; its first
/// group is the size moved so far.
pub open spec fn transferred_pattern() -> Seq<char> {
    "Transferred:\\s+([0-9.,]+\\s*[KMGT]?i?B)\\s*/\\s*([0-9.,]+\\s*[KMGT]?i?B)"@
}

/// The bytes that a size names, if it can be read.
pub open spec fn bytes_named(size: Seq<char>) -> Option<u64> {
    match byte_size_of(size) {
        Ok(bytes) => Some(bytes),
        Err(_) => None,
    }
}

/// The bytes that a line reports, given what the two expressions captured
/// in it. A progress line counts before a `Transferred:` report, and a
/// progress line whose size cannot be read reports nothing.
pub open spec fn bytes_reported(progress: Option<Seq<char>>, transferred: Option<Seq<char>>) -> Option<
    u64,
> {
    match progress {
        Some(size) => bytes_named(size),
        None => match transferred {
            Some(size) => bytes_named(size),
            None => None,
        },
    }
}

/// The bytes that `line` reports.
pub open spec fn bytes_in_line(line: Seq<char>) -> Option<u64> {
    bytes_reported(
        capture_of(progress_pattern(), 1, line),
        capture_of(transferred_pattern(), 1, line),
    )
}

/// The bytes that the last of `lines` to report any reports; 0 if none
/// does.
pub open spec fn latest_bytes(lines: Seq<Seq<char>>) -> u64
    decreases lines.len(),
{
    if lines.len() == 0 {
        0
    } else {
        match bytes_in_line(lines.last()) {
            Some(bytes) => bytes,
            None => latest_bytes(lines.drop_last()),
        }
    }
}

/// The numbers of files and bytes that an output reports, given the bytes
/// of its latest report; nothing if that is 0. The number of files is not
/// in these reports and is given as 0.
pub open spec fn stats_from(bytes: u64) -> Option<(u64, u64)> {
    if bytes > 0 {
        Some((0, bytes))
    } else {
        None
    }
}

/// The bytes that a line reports, given what the two expressions captured
/// in it.
pub fn bytes_from_captures(progress: Option<&str>, transferred: Option<&str>) -> (bytes: Option<u64>)
    ensures
        bytes == bytes_reported(
            match progress {
                Some(s) => Some(s@),
                None => None,
            },
            match transferred {
                Some(s) => Some(s@),
                None => None,
            },
        ),
{
    let size = match progress {
        Some(size) => size,
        None => match transferred {
            Some(size) => size,
            None => {
                return None;
            },
        },
    };
    match parse_byte_size(size) {
        Ok(bytes) => Some(bytes),
        Err(_) => None,
    }
}

/// The bytes that `line` reports.
pub fn bytes_of_line(line: &str) -> (bytes: Option<u64>)
    ensures
        bytes == bytes_in_line(line@),
{
    let progress = captured(
        "^\\s*([0-9.,]+\\s*[KMGT]?i?B)\\s*/\\s*([0-9.,]+\\s*[KMGT]?i?B)\\s*,\\s*(\\d+)%",
        1,
        line,
    );
    let transferred = captured(
        "Transferred:\\s+([0-9.,]+\\s*[KMGT]?i?B)\\s*/\\s*([0-9.,]+\\s*[KMGT]?i?B)",
        1,
        line,
    );
    bytes_from_captures(
        match &progress {
            Some(s) => Some(s.as_str()),
            None => None,
        },
        match &transferred {
            Some(s) => Some(s.as_str()),
            None => None,
        },
    )
}

/// The numbers of files and bytes that `output` reports: the bytes of its
/// latest report, and nothing if there is none or it reports none.
pub fn parse_rclone_stats(output: &str) -> (stats: Option<(u64, u64)>)
    ensures
        stats == stats_from(latest_bytes(lines_of(output@))),
{
    let chars = to_chars(output);
    let lines = split_lines(chars.as_slice());
    let mut bytes: u64 = 0;
    let mut i: usize = 0;
    assert(texts(lines@).take(0) =~= Seq::<Seq<char>>::empty());
    while i < lines.len()
        invariant
            i <= lines.len(),
            bytes == latest_bytes(texts(lines@).take(i as int)),
        decreases lines.len() - i,
    {
        let line = string_of(lines[i]);
        proof {
            let seen = texts(lines@).take(i + 1);
            assert(seen.drop_last() =~= texts(lines@).take(i as int));
            assert(seen.last() == line@);
        }
        match bytes_of_line(line.as_str()) {
            Some(reported) => {
                bytes = reported;
            },
            None => {},
        }
        i = i + 1;
    }
    assert(texts(lines@).take(lines.len() as int) =~= texts(lines@));
    if bytes > 0 {
        Some((0, bytes))
    } else {
        None
    }
}

/// A line that tells of a file copied.
pub open spec fn tells_of_copy(line: Seq<char>) -> bool {
    contains(line, "Copied (new)"@) || contains(line, "Copied (replaced existing)"@) || contains(
        line,
        "Copied (server-side copy)"@,
    )
}

/// A line that tells of a file deleted, and not of one copied.
pub open spec fn tells_of_deletion(line: Seq<char>) -> bool {
    !tells_of_copy(line) && contains(line, "Deleted"@)
}

/// How many of `lines` tell of a file copied.
pub open spec fn copies_in(lines: Seq<Seq<char>>) -> nat {
    lines.filter(|line: Seq<char>| tells_of_copy(line)).len()
}

/// How many of `lines` tell of a file deleted.
pub open spec fn deletions_in(lines: Seq<Seq<char>>) -> nat {
    lines.filter(|line: Seq<char>| tells_of_deletion(line)).len()
}

/// Counts the files that `output` tells were copied and deleted.
pub fn parse_rclone_file_operations(output: &str) -> (counts: (u64, u64))
    ensures
        counts.0 == copies_in(lines_of(output@)),
        counts.1 == deletions_in(lines_of(output@)),
{
    let chars = to_chars(output);
    let lines = split_lines(chars.as_slice());
    let new = to_chars("Copied (new)");
    let replaced = to_chars("Copied (replaced existing)");
    let server_side = to_chars("Copied (server-side copy)");
    let deleted = to_chars("Deleted");
    let ghost copy = |line: Seq<char>| tells_of_copy(line);
    let ghost deletion = |line: Seq<char>| tells_of_deletion(line);
    let mut files_copied: u64 = 0;
    let mut files_deleted: u64 = 0;
    let mut i: usize = 0;
    proof {
        reveal(Seq::filter);
        assert(texts(lines@).take(0) =~= Seq::<Seq<char>>::empty());
    }
    while i < lines.len()
        invariant
            i <= lines.len(),
            new@ == "Copied (new)"@,
            replaced@ == "Copied (replaced existing)"@,
            server_side@ == "Copied (server-side copy)"@,
            deleted@ == "Deleted"@,
            copy == (|line: Seq<char>| tells_of_copy(line)),
            deletion == (|line: Seq<char>| tells_of_deletion(line)),
            files_copied == texts(lines@).take(i as int).filter(copy).len(),
            files_deleted == texts(lines@).take(i as int).filter(deletion).len(),
            files_copied <= i,
            files_deleted <= i,
        decreases lines.len() - i,
    {
        let line = lines[i];
        proof {
            let seen = texts(lines@).take(i as int);
            assert(texts(lines@).take(i + 1) =~= seen.push(line@));
            seen.lemma_filter_push(line@, copy);
            seen.lemma_filter_push(line@, deletion);
        }
        if includes(line, new.as_slice()) || includes(line, replaced.as_slice()) || includes(
            line,
            server_side.as_slice(),
        ) {
            files_copied = files_copied + 1;
        } else if includes(line, deleted.as_slice()) {
            files_deleted = files_deleted + 1;
        }
        i = i + 1;
    }
    assert(texts(lines@).take(lines.len() as int) =~= texts(lines@));
    (files_copied, files_deleted)
}

/// What stands between the first and the second double quote of `line`, or
/// behind the first if there is no second; nothing if there is none.
pub open spec fn quoted_in(line: Seq<char>) -> Option<Seq<char>> {
    let pieces = split(line, '"');
    if pieces.len() >= 2 {
        Some(pieces[1])
    } else {
        None
    }
}

/// The path of the file that a notice of the transfer tool names in double
/// quotes.
pub fn extract_file_path_from_notice(line: &str) -> (path: Option<String>)
    ensures
        text_model(path) == quoted_in(line@),
{
    let chars = to_chars(line);
    quoted(chars.as_slice())
}

/// What stands between the first and the second double quote of `line`.
fn quoted(line: &[char]) -> (path: Option<String>)
    ensures
        text_model(path) == quoted_in(line@),
{
    let pieces = split_on(line, '"');
    assert(texts(pieces@).len() == pieces@.len());
    if pieces.len() >= 2 {
        assert(texts(pieces@)[1] == pieces@[1]@);
        Some(string_of(pieces[1]))
    } else {
        None
    }
}

/// What a notice says the tool would do, if it says so.
pub open spec fn action_in(line: Seq<char>) -> Option<ChangeAction> {
    if !contains(line, "NOTICE:"@) {
        None
    } else if contains(line, "would copy"@) {
        Some(ChangeAction::Copy)
    } else if contains(line, "would update"@) {
        Some(ChangeAction::Update)
    } else if contains(line, "would delete"@) {
        Some(ChangeAction::Delete)
    } else {
        None
    }
}

/// The change that `line` announces: the action it names on the path it
/// quotes. The size is not in the notice and is given as 0.
pub open spec fn change_in(line: Seq<char>) -> Option<ChangeRecord> {
    match (action_in(line), quoted_in(line)) {
        (Some(action), Some(path)) => Some(ChangeRecord { path, size: 0, action }),
        _ => None,
    }
}

/// The changes that `lines` announce, in order.
pub open spec fn changes_in(lines: Seq<Seq<char>>) -> Seq<ChangeRecord>
    decreases lines.len(),
{
    if lines.len() == 0 {
        Seq::empty()
    } else {
        match change_in(lines.last()) {
            Some(change) => changes_in(lines.drop_last()).push(change),
            None => changes_in(lines.drop_last()),
        }
    }
}

/// Reads from the output of a dry run what the tool would copy, update and
/// delete. It never fails.
pub fn parse_dry_run_output(output: &str) -> (changes: Result<Vec<FileChange>, String>)
    ensures
        changes matches Ok(found) && change_records_of(found@) == changes_in(lines_of(output@)),
{
    let chars = to_chars(output);
    let lines = split_lines(chars.as_slice());
    let notice = to_chars("NOTICE:");
    let copy = to_chars("would copy");
    let update = to_chars("would update");
    let delete = to_chars("would delete");
    let mut found: Vec<FileChange> = Vec::new();
    let mut i: usize = 0;
    proof {
        assert(texts(lines@).take(0) =~= Seq::<Seq<char>>::empty());
        assert(change_records_of(found@) =~= Seq::<ChangeRecord>::empty());
    }
    while i < lines.len()
        invariant
            i <= lines.len(),
            notice@ == "NOTICE:"@,
            copy@ == "would copy"@,
            update@ == "would update"@,
            delete@ == "would delete"@,
            change_records_of(found@) == changes_in(texts(lines@).take(i as int)),
        decreases lines.len() - i,
    {
        let line = lines[i];
        proof {
            let seen = texts(lines@).take(i + 1);
            assert(seen.drop_last() =~= texts(lines@).take(i as int));
            assert(seen.last() == line@);
        }
        let action = if !includes(line, notice.as_slice()) {
            None
        } else if includes(line, copy.as_slice()) {
            Some(ChangeAction::Copy)
        } else if includes(line, update.as_slice()) {
            Some(ChangeAction::Update)
        } else if includes(line, delete.as_slice()) {
            Some(ChangeAction::Delete)
        } else {
            None
        };
        match action {
            Some(action) => match quoted(line) {
                Some(path) => {
                    let ghost before = change_records_of(found@);
                    let change = FileChange { path, size: 0, action };
                    found.push(change);
                    assert(change_records_of(found@) =~= before.push(change@));
                },
                None => {},
            },
            None => {},
        }
        i = i + 1;
    }
    assert(texts(lines@).take(lines.len() as int) =~= texts(lines@));
    Ok(found)
}

} // verus!
