//! The lines of a backup log.
//!
//! The script that runs a scheduled backup writes a line when it starts and
//! a line when it is done, each stamped by `date`, as in
//! `Wed Aug 20 00:22:05 CDT 2025: Starting backup for profile home`. Between
//! the two the transfer tool reports what it moved, in lines that hold
//! `Transferred:`. Everything else is free text.

use crate::byte_size::{byte_size_of, measure};
use crate::calendar::{CalendarDate, Hms, TimeOfDay, Ymd};
use crate::text::{
    all_digits, contains, decimal_value, digit, digit_value, find, find_from, includes, is_digit,
    is_word3, lemma_find_from, lemma_run_end, lemma_value_below_power, only_digits, pow10,
    run_end, scan, split, split_on, texts, to_chars, value_of_digit, value_of_digits, CharClass,
};
use vstd::prelude::*;
use vstd::slice::slice_subrange;

verus! {

/// A date and a time of day as a local clock shows them, as mathematical
/// values: the model of [`LocalStamp`].
pub struct LocalTime {
    pub date: Ymd,
    pub time: Hms,
}

/// The date and time of day that stand in the stamp of a log line.
#[derive(Clone, Copy, Debug)]
pub struct LocalStamp {
    pub date: CalendarDate,
    pub time: TimeOfDay,
}

impl View for LocalStamp {
    type V = LocalTime;

    open spec fn view(&self) -> LocalTime {
        LocalTime { date: self.date@, time: self.time@ }
    }
}

/// The model of an optional stamp.
pub open spec fn stamp_model(stamp: Option<LocalStamp>) -> Option<LocalTime> {
    match stamp {
        Some(s) => Some(s@),
        None => None,
    }
}

/// What a line of the log is.
pub enum LineModel {
    /// The line that opens a run, with the local time in its stamp, or
    /// `None` if the stamp cannot be read.
    Start(Option<LocalTime>),
    /// The line that closes a run.
    Completion,
    /// Any other line, with the counts it reports, if any.
    Body { files: Option<u64>, bytes: Option<u64> },
}

/// What a line of the log is.
#[derive(Clone, Copy, Debug)]
pub enum LogLine {
    /// The line that opens a run, with the local time in its stamp, or
    /// `None` if the stamp cannot be read.
    Start(Option<LocalStamp>),
    /// The line that closes a run.
    Completion,
    /// Any other line, with the counts it reports, if any.
    Body { files: Option<u64>, bytes: Option<u64> },
}

impl View for LogLine {
    type V = LineModel;

    open spec fn view(&self) -> LineModel {
        match *self {
            LogLine::Start(stamp) => LineModel::Start(stamp_model(stamp)),
            LogLine::Completion => LineModel::Completion,
            LogLine::Body { files, bytes } => LineModel::Body { files, bytes },
        }
    }
}

/// The words of `text`: what stands between its spaces.
pub open spec fn words_of(text: Seq<char>) -> Seq<Seq<char>> {
    split(text, ' ').filter(|word: Seq<char>| word.len() > 0)
}

/// One of the seven names that `date` gives the days of the week.
pub open spec fn is_weekday_name(word: Seq<char>) -> bool {
    word == seq!['S', 'u', 'n'] || word == seq!['M', 'o', 'n'] || word == seq!['T', 'u', 'e']
        || word == seq!['W', 'e', 'd'] || word == seq!['T', 'h', 'u'] || word == seq![
        'F',
        'r',
        'i',
    ] || word == seq!['S', 'a', 't']
}

/// The number of the month that `date` names `word`.
pub open spec fn month_number(word: Seq<char>) -> Option<int> {
    if word == seq!['J', 'a', 'n'] {
        Some(1)
    } else if word == seq!['F', 'e', 'b'] {
        Some(2)
    } else if word == seq!['M', 'a', 'r'] {
        Some(3)
    } else if word == seq!['A', 'p', 'r'] {
        Some(4)
    } else if word == seq!['M', 'a', 'y'] {
        Some(5)
    } else if word == seq!['J', 'u', 'n'] {
        Some(6)
    } else if word == seq!['J', 'u', 'l'] {
        Some(7)
    } else if word == seq!['A', 'u', 'g'] {
        Some(8)
    } else if word == seq!['S', 'e', 'p'] {
        Some(9)
    } else if word == seq!['O', 'c', 't'] {
        Some(10)
    } else if word == seq!['N', 'o', 'v'] {
        Some(11)
    } else if word == seq!['D', 'e', 'c'] {
        Some(12)
    } else {
        None
    }
}

/// The number that `word` states, if it is made of one to `most` digits.
pub open spec fn small_number(word: Seq<char>, most: nat) -> Option<int> {
    if 1 <= word.len() <= most && all_digits(word) {
        Some(decimal_value(word) as int)
    } else {
        None
    }
}

/// The number that the two digits `tens` and `ones` state.
pub open spec fn two_digits(tens: char, ones: char) -> int {
    (digit_value(tens) * 10 + digit_value(ones)) as int
}

/// The fields of a time written as `HH:MM:SS`, whether or not a clock can
/// show them.
pub open spec fn clock_of(word: Seq<char>) -> Option<Hms> {
    if word.len() == 8 && is_digit(word[0]) && is_digit(word[1]) && word[2] == ':' && is_digit(
        word[3],
    ) && is_digit(word[4]) && word[5] == ':' && is_digit(word[6]) && is_digit(word[7]) {
        Some(
            Hms {
                hour: two_digits(word[0], word[1]),
                minute: two_digits(word[3], word[4]),
                second: two_digits(word[6], word[7]),
            },
        )
    } else {
        None
    }
}

/// The local time that a stamp states: six words, which are the name of a
/// weekday, the name of a month, the day of the month, the time as
/// `HH:MM:SS`, the name of a time zone, and the year. The date must exist
/// and the time must be on the clock.
///
/// The weekday is not held against the date, and the time zone is not
/// consulted: the time is taken as the local clock showed it.
pub open spec fn stamp_of(text: Seq<char>) -> Option<LocalTime> {
    let words = words_of(text);
    if words.len() != 6 || !is_weekday_name(words[0]) {
        None
    } else {
        match (
            month_number(words[1]),
            small_number(words[2], 2),
            clock_of(words[3]),
            small_number(words[5], 6),
        ) {
            (Some(month), Some(day), Some(time), Some(year)) => {
                let date = Ymd { year, month, day };
                if date.exists_in_calendar() && time.on_the_clock() {
                    Some(LocalTime { date, time })
                } else {
                    None
                }
            },
            _ => None,
        }
    }
}

/// The words of `text`: what stands between its spaces.
pub fn words<'a>(text: &'a [char]) -> (found: Vec<&'a [char]>)
    ensures
        texts(found@) == words_of(text@),
{
    let pieces = split_on(text, ' ');
    let ghost keep = |word: Seq<char>| word.len() > 0;
    let mut found: Vec<&'a [char]> = Vec::new();
    let mut i: usize = 0;
    proof {
        reveal(Seq::filter);
        assert(texts(pieces@).take(0) =~= Seq::<Seq<char>>::empty());
    }
    while i < pieces.len()
        invariant
            i <= pieces.len(),
            keep == (|word: Seq<char>| word.len() > 0),
            texts(found@) == texts(pieces@).take(i as int).filter(keep),
        decreases pieces.len() - i,
    {
        let piece = pieces[i];
        proof {
            reveal(Seq::filter);
            assert(texts(pieces@).take(i + 1).drop_last() =~= texts(pieces@).take(i as int));
            assert(texts(pieces@).take(i + 1).last() == piece@);
        }
        if piece.len() > 0 {
            found.push(piece);
            assert(texts(found@) =~= texts(found@.drop_last()).push(piece@));
        }
        i = i + 1;
    }
    proof {
        assert(texts(pieces@).take(pieces.len() as int) =~= texts(pieces@));
    }
    found
}

/// Tells whether `word` names a day of the week.
pub fn weekday_name(word: &[char]) -> (yes: bool)
    ensures
        yes == is_weekday_name(word@),
{
    is_word3(word, 'S', 'u', 'n') || is_word3(word, 'M', 'o', 'n') || is_word3(word, 'T', 'u', 'e')
        || is_word3(word, 'W', 'e', 'd') || is_word3(word, 'T', 'h', 'u') || is_word3(
        word,
        'F',
        'r',
        'i',
    ) || is_word3(word, 'S', 'a', 't')
}

/// The number of the month that `word` names.
pub fn month_named(word: &[char]) -> (month: Option<u32>)
    ensures
        match month {
            Some(m) => month_number(word@) == Some(m as int),
            None => month_number(word@) is None,
        },
{
    if is_word3(word, 'J', 'a', 'n') {
        Some(1)
    } else if is_word3(word, 'F', 'e', 'b') {
        Some(2)
    } else if is_word3(word, 'M', 'a', 'r') {
        Some(3)
    } else if is_word3(word, 'A', 'p', 'r') {
        Some(4)
    } else if is_word3(word, 'M', 'a', 'y') {
        Some(5)
    } else if is_word3(word, 'J', 'u', 'n') {
        Some(6)
    } else if is_word3(word, 'J', 'u', 'l') {
        Some(7)
    } else if is_word3(word, 'A', 'u', 'g') {
        Some(8)
    } else if is_word3(word, 'S', 'e', 'p') {
        Some(9)
    } else if is_word3(word, 'O', 'c', 't') {
        Some(10)
    } else if is_word3(word, 'N', 'o', 'v') {
        Some(11)
    } else if is_word3(word, 'D', 'e', 'c') {
        Some(12)
    } else {
        None
    }
}

/// The number that `word` states, if it is made of one to `most` digits,
/// for `most` up to 6.
pub(crate) fn read_small_number(word: &[char], most: usize) -> (number: Option<u32>)
    requires
        most <= 6,
    ensures
        match number {
            Some(n) => small_number(word@, most as nat) == Some(n as int) && n < 1_000_000,
            None => small_number(word@, most as nat) is None,
        },
{
    if word.len() < 1 || word.len() > most || !only_digits(word) {
        return None;
    }
    proof {
        lemma_value_below_power(word@);
        reveal_with_fuel(pow10, 7);
        assert(pow10(word@.len()) <= 1_000_000);
    }
    match value_of_digits(word) {
        Some(value) => Some(value as u32),
        None => None,
    }
}

/// The fields of a time written as `HH:MM:SS`.
pub fn read_clock(word: &[char]) -> (fields: Option<(u32, u32, u32)>)
    ensures
        match fields {
            Some(f) => clock_of(word@) == Some(
                Hms { hour: f.0 as int, minute: f.1 as int, second: f.2 as int },
            ),
            None => clock_of(word@) is None,
        },
{
    if word.len() == 8 && digit(word[0]) && digit(word[1]) && word[2] == ':' && digit(word[3])
        && digit(word[4]) && word[5] == ':' && digit(word[6]) && digit(word[7]) {
        let hour: u32 = value_of_digit(word[0]) as u32 * 10 + value_of_digit(word[1]) as u32;
        let minute: u32 = value_of_digit(word[3]) as u32 * 10 + value_of_digit(word[4]) as u32;
        let second: u32 = value_of_digit(word[6]) as u32 * 10 + value_of_digit(word[7]) as u32;
        Some((hour, minute, second))
    } else {
        None
    }
}

/// Reads the local time that a stamp such as
/// `Wed Aug 20 00:22:05 CDT 2025` states.
pub fn parse_stamp(text: &[char]) -> (stamp: Option<LocalStamp>)
    ensures
        stamp_model(stamp) == stamp_of(text@),
{
    let found = words(text);
    assert(texts(found@).len() == found@.len());
    if found.len() != 6 {
        return None;
    }
    assert(forall|i: int| 0 <= i < 6 ==> #[trigger] texts(found@)[i] == found@[i]@);
    assert(words_of(text@)[0] == found@[0]@);
    assert(words_of(text@)[1] == found@[1]@);
    assert(words_of(text@)[2] == found@[2]@);
    assert(words_of(text@)[3] == found@[3]@);
    assert(words_of(text@)[5] == found@[5]@);
    if !weekday_name(found[0]) {
        return None;
    }
    let month = match month_named(found[1]) {
        Some(m) => m,
        None => {
            return None;
        },
    };
    let day = match read_small_number(found[2], 2) {
        Some(d) => d,
        None => {
            return None;
        },
    };
    let clock = match read_clock(found[3]) {
        Some(c) => c,
        None => {
            return None;
        },
    };
    let year = match read_small_number(found[5], 6) {
        Some(y) => y,
        None => {
            return None;
        },
    };
    let date = match CalendarDate::new(year as i32, month, day) {
        Some(d) => d,
        None => {
            return None;
        },
    };
    let time = match TimeOfDay::new(clock.0, clock.1, clock.2) {
        Some(t) => t,
        None => {
            return None;
        },
    };
    Some(LocalStamp { date, time })
}

/// What follows the first occurrence of `marker` in `line`.
pub open spec fn after_first(line: Seq<char>, marker: Seq<char>) -> Option<Seq<char>> {
    match find_from(line, marker, 0) {
        Some(at) => Some(line.skip(at + marker.len())),
        None => None,
    }
}

/// The number of files in a report of the form `N / M, P%`, which may begin
/// with blanks and have blanks around the stroke and after the comma. It is
/// the first of the three numbers, if it fits in 64 bits.
pub open spec fn file_count_in(rest: Seq<char>) -> Option<u64> {
    let a = run_end(rest, CharClass::Blank, 0);
    let b = run_end(rest, CharClass::Digit, a);
    let c = run_end(rest, CharClass::Blank, b);
    let d = run_end(rest, CharClass::Blank, c + 1);
    let e = run_end(rest, CharClass::Digit, d);
    let f = run_end(rest, CharClass::Blank, e + 1);
    let g = run_end(rest, CharClass::Digit, f);
    if a < b && c < rest.len() && rest[c] == '/' && d < e && e < rest.len() && rest[e] == ','
        && f < g && g < rest.len() && rest[g] == '%' && decimal_value(rest.subrange(a, b))
        <= u64::MAX {
        Some(decimal_value(rest.subrange(a, b)) as u64)
    } else {
        None
    }
}

/// The letters that make a unit a thousand, a million, a thousand million
/// or a million million bytes.
pub open spec fn is_unit_prefix(c: char) -> bool {
    c == 'K' || c == 'M' || c == 'G' || c == 'T'
}

/// Where the size that begins at `from` ends: one or more digits, points
/// and commas, then blanks if any, then a unit, which is `B` with at most
/// one of `K`, `M`, `G`, `T` and at most one `i` before it. `None` if no
/// size begins there.
pub open spec fn size_end(rest: Seq<char>, from: int) -> Option<int> {
    let number_end = run_end(rest, CharClass::Numeric, from);
    let unit = run_end(rest, CharClass::Blank, number_end);
    let after_prefix = if unit < rest.len() && is_unit_prefix(rest[unit]) {
        unit + 1
    } else {
        unit
    };
    let after_i = if after_prefix < rest.len() && rest[after_prefix] == 'i' {
        after_prefix + 1
    } else {
        after_prefix
    };
    if from < number_end && after_i < rest.len() && rest[after_i] == 'B' {
        Some(after_i + 1)
    } else {
        None
    }
}

/// The number of bytes in a report of the form `size / size`, which may
/// begin with blanks and have blanks around the stroke. It is what the
/// first size states, if that can be read.
pub open spec fn byte_count_in(rest: Seq<char>) -> Option<u64> {
    let a = run_end(rest, CharClass::Blank, 0);
    match size_end(rest, a) {
        None => None,
        Some(end) => {
            let stroke = run_end(rest, CharClass::Blank, end);
            let second = run_end(rest, CharClass::Blank, stroke + 1);
            if stroke < rest.len() && rest[stroke] == '/' && size_end(rest, second) is Some {
                match byte_size_of(rest.subrange(a, end)) {
                    Ok(bytes) => Some(bytes),
                    Err(_) => None,
                }
            } else {
                None
            }
        },
    }
}

/// The word that begins a report of the transfer tool.
pub open spec fn transferred_marker() -> Seq<char> {
    "Transferred:"@
}

/// The phrase of a line that opens a run.
pub open spec fn start_marker() -> Seq<char> {
    "Starting backup"@
}

/// The phrase of a line that opens a run which the scheduler began.
pub open spec fn scheduled_marker() -> Seq<char> {
    "Starting scheduled backup"@
}

/// The phrase of a line that closes a run.
pub open spec fn completion_marker() -> Seq<char> {
    "Backup completed"@
}

/// What parts a line's stamp from its message.
pub open spec fn stamp_end() -> Seq<char> {
    ": "@
}

/// The number of files that `line` reports.
pub open spec fn file_count_of(line: Seq<char>) -> Option<u64> {
    match after_first(line, transferred_marker()) {
        Some(rest) => file_count_in(rest),
        None => None,
    }
}

/// The number of bytes that `line` reports.
pub open spec fn byte_count_of(line: Seq<char>) -> Option<u64> {
    match after_first(line, transferred_marker()) {
        Some(rest) => byte_count_in(rest),
        None => None,
    }
}

/// The local time in the stamp of `line`: what stands before the first
/// colon that a space follows.
pub open spec fn stamp_of_line(line: Seq<char>) -> Option<LocalTime> {
    match find_from(line, stamp_end(), 0) {
        Some(at) => stamp_of(line.take(at)),
        None => None,
    }
}

/// What `line` is. A line that holds one of the two start phrases opens a
/// run; of the others, a line that holds the completion phrase closes one;
/// every other line is body text.
pub open spec fn classify(line: Seq<char>) -> LineModel {
    if contains(line, start_marker()) || contains(line, scheduled_marker()) {
        LineModel::Start(stamp_of_line(line))
    } else if contains(line, completion_marker()) {
        LineModel::Completion
    } else {
        LineModel::Body { files: file_count_of(line), bytes: byte_count_of(line) }
    }
}

/// Reads the number of files in a report of the form `N / M, P%`.
pub fn read_file_count(rest: &[char]) -> (files: Option<u64>)
    ensures
        files == file_count_in(rest@),
{
    let a = scan(rest, CharClass::Blank, 0);
    let b = scan(rest, CharClass::Digit, a);
    let c = scan(rest, CharClass::Blank, b);
    if !(a < b && c < rest.len() && rest[c] == '/') {
        return None;
    }
    let d = scan(rest, CharClass::Blank, c + 1);
    let e = scan(rest, CharClass::Digit, d);
    if !(d < e && e < rest.len() && rest[e] == ',') {
        return None;
    }
    let f = scan(rest, CharClass::Blank, e + 1);
    let g = scan(rest, CharClass::Digit, f);
    if !(f < g && g < rest.len() && rest[g] == '%') {
        return None;
    }
    let digits = slice_subrange(rest, a, b);
    proof {
        lemma_run_end(rest@, CharClass::Digit, a as int);
        assert(digits@ =~= rest@.subrange(a as int, b as int));
        assert forall|i: int| 0 <= i < digits@.len() implies is_digit(#[trigger] digits@[i]) by {
            assert(digits@[i] == rest@[a + i]);
        }
    }
    value_of_digits(digits)
}

/// Finds where the size that begins at `from` ends.
pub(crate) fn read_size_end(rest: &[char], from: usize) -> (end: Option<usize>)
    requires
        from <= rest@.len(),
    ensures
        match end {
            Some(e) => size_end(rest@, from as int) == Some(e as int) && from < e <= rest@.len(),
            None => size_end(rest@, from as int) is None,
        },
{
    let number_end = scan(rest, CharClass::Numeric, from);
    let unit = scan(rest, CharClass::Blank, number_end);
    let after_prefix = if unit < rest.len() && (rest[unit] == 'K' || rest[unit] == 'M'
        || rest[unit] == 'G' || rest[unit] == 'T') {
        unit + 1
    } else {
        unit
    };
    let after_i = if after_prefix < rest.len() && rest[after_prefix] == 'i' {
        after_prefix + 1
    } else {
        after_prefix
    };
    if from < number_end && after_i < rest.len() && rest[after_i] == 'B' {
        Some(after_i + 1)
    } else {
        None
    }
}

/// Reads the number of bytes in a report of the form `size / size`.
pub fn read_byte_count(rest: &[char]) -> (bytes: Option<u64>)
    ensures
        bytes == byte_count_in(rest@),
{
    let a = scan(rest, CharClass::Blank, 0);
    let end = match read_size_end(rest, a) {
        Some(e) => e,
        None => {
            return None;
        },
    };
    let stroke = scan(rest, CharClass::Blank, end);
    if !(stroke < rest.len() && rest[stroke] == '/') {
        return None;
    }
    let second = scan(rest, CharClass::Blank, stroke + 1);
    if read_size_end(rest, second).is_none() {
        return None;
    }
    let size = slice_subrange(rest, a, end);
    assert(size@ =~= rest@.subrange(a as int, end as int));
    match measure(size) {
        Ok(bytes) => Some(bytes),
        Err(_) => None,
    }
}

/// The phrases by which the lines of a log are told apart, as characters.
pub struct Markers {
    start: Vec<char>,
    scheduled: Vec<char>,
    completed: Vec<char>,
    stamp_end: Vec<char>,
    transferred: Vec<char>,
}

impl Markers {
    #[verifier::type_invariant]
    spec fn well_formed(self) -> bool {
        &&& self.start@ == start_marker()
        &&& self.scheduled@ == scheduled_marker()
        &&& self.completed@ == completion_marker()
        &&& self.stamp_end@ == stamp_end()
        &&& self.transferred@ == transferred_marker()
    }

    /// The phrases of the log format.
    pub fn new() -> (markers: Markers) {
        Markers {
            start: to_chars("Starting backup"),
            scheduled: to_chars("Starting scheduled backup"),
            completed: to_chars("Backup completed"),
            stamp_end: to_chars(": "),
            transferred: to_chars("Transferred:"),
        }
    }

    /// What follows the first `Transferred:` in `line`.
    fn report<'a>(&self, line: &'a [char]) -> (rest: Option<&'a [char]>)
        ensures
            match rest {
                Some(r) => after_first(line@, transferred_marker()) == Some(r@),
                None => after_first(line@, transferred_marker()) is None,
            },
    {
        proof {
            use_type_invariant(self);
        }
        match find(line, self.transferred.as_slice(), 0) {
            Some(at) => {
                proof {
                    lemma_find_from(line@, transferred_marker(), 0);
                }
                let end = line.len();
                let rest = slice_subrange(line, at + self.transferred.len(), end);
                assert(rest@ =~= line@.skip(at + transferred_marker().len()));
                Some(rest)
            },
            None => None,
        }
    }

    /// Tells what `line` is.
    pub fn classify(&self, line: &[char]) -> (kind: LogLine)
        ensures
            kind@ == classify(line@),
    {
        proof {
            use_type_invariant(self);
        }
        if includes(line, self.start.as_slice()) || includes(line, self.scheduled.as_slice()) {
            match find(line, self.stamp_end.as_slice(), 0) {
                Some(at) => {
                    proof {
                        lemma_find_from(line@, stamp_end(), 0);
                    }
                    let stamp = slice_subrange(line, 0, at);
                    assert(stamp@ =~= line@.take(at as int));
                    LogLine::Start(parse_stamp(stamp))
                },
                None => LogLine::Start(None),
            }
        } else if includes(line, self.completed.as_slice()) {
            LogLine::Completion
        } else {
            match self.report(line) {
                Some(rest) => LogLine::Body {
                    files: read_file_count(rest),
                    bytes: read_byte_count(rest),
                },
                None => LogLine::Body { files: None, bytes: None },
            }
        }
    }
}

} // verus!
