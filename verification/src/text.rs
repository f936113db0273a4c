//! Text as sequences of characters: searching, cutting into lines, reading
//! decimal numbers.

use vstd::prelude::*;
use vstd::slice::slice_subrange;

verus! {

/// `pattern` stands in `text` at position `at`.
pub open spec fn occurs_at(text: Seq<char>, pattern: Seq<char>, at: int) -> bool {
    0 <= at && at + pattern.len() <= text.len() && text.subrange(at, at + pattern.len())
        == pattern
}

/// `pattern` stands somewhere in `text`.
pub open spec fn contains(text: Seq<char>, pattern: Seq<char>) -> bool {
    exists|at: int| occurs_at(text, pattern, at)
}

/// The first position at or after `from` at which `pattern` stands in
/// `text`.
pub open spec fn find_from(text: Seq<char>, pattern: Seq<char>, from: int) -> Option<int>
    decreases text.len() - from + 1,
{
    if from < 0 || from + pattern.len() > text.len() {
        None
    } else if occurs_at(text, pattern, from) {
        Some(from)
    } else {
        find_from(text, pattern, from + 1)
    }
}

/// `text` ends with `suffix`.
pub open spec fn ends_with(text: Seq<char>, suffix: Seq<char>) -> bool {
    occurs_at(text, suffix, text.len() - suffix.len())
}

/// `text` begins with `prefix`.
pub open spec fn starts_with(text: Seq<char>, prefix: Seq<char>) -> bool {
    occurs_at(text, prefix, 0)
}

/// One of the ten digits `0` to `9`.
pub open spec fn is_digit(c: char) -> bool {
    '0' <= c && c <= '9'
}

/// Every character of `text` is a digit.
pub open spec fn all_digits(text: Seq<char>) -> bool {
    forall|i: int| 0 <= i < text.len() ==> is_digit(#[trigger] text[i])
}

/// The number that a digit stands for.
pub open spec fn digit_value(c: char) -> nat {
    (c as u32 - '0' as u32) as nat
}

/// The number that a sequence of digits stands for in base ten; 0 for the
/// empty sequence.
pub open spec fn decimal_value(digits: Seq<char>) -> nat
    decreases digits.len(),
{
    if digits.len() == 0 {
        0
    } else {
        decimal_value(digits.drop_last()) * 10 + digit_value(digits.last())
    }
}

/// What [`find_from`] finds is an occurrence with none before it, and where
/// it finds nothing there is none.
pub proof fn lemma_find_from(text: Seq<char>, pattern: Seq<char>, from: int)
    requires
        0 <= from,
    ensures
        match find_from(text, pattern, from) {
            Some(at) => from <= at && occurs_at(text, pattern, at) && forall|i: int|
                from <= i < at ==> !occurs_at(text, pattern, i),
            None => forall|i: int| from <= i ==> !occurs_at(text, pattern, i),
        },
    decreases text.len() - from + 1,
{
    if from + pattern.len() > text.len() {
    } else if occurs_at(text, pattern, from) {
    } else {
        lemma_find_from(text, pattern, from + 1);
    }
}

/// A text contains a pattern exactly if a search from its start finds it.
pub proof fn lemma_contains_iff_found(text: Seq<char>, pattern: Seq<char>)
    ensures
        contains(text, pattern) <==> find_from(text, pattern, 0) is Some,
{
    lemma_find_from(text, pattern, 0);
    if contains(text, pattern) {
        let at = choose|at: int| occurs_at(text, pattern, at);
        assert(occurs_at(text, pattern, at));
    }
}

/// The characters of a string.
pub fn to_chars(s: &str) -> (chars: Vec<char>)
    ensures
        chars@ == s@,
{
    let mut chars: Vec<char> = Vec::new();
    for c in it: s.chars()
        invariant
            chars@ == it.seq().take(it.index() as int),
            it.seq() == s@,
    {
        chars.push(c);
    }
    chars
}

/// The string made of these characters, by `String::from_iter` of the
/// standard library.
///
/// Trusted: the string holds the characters it was collected from, in
/// order.
#[verifier::external_body]
pub(crate) fn string_of(chars: &[char]) -> (s: String)
    ensures
        s@ == chars@,
{
    String::from_iter(chars.iter())
}

/// Tells whether `pattern` stands in `text` at position `at`.
pub fn matches_at(text: &[char], pattern: &[char], at: usize) -> (found: bool)
    ensures
        found == occurs_at(text@, pattern@, at as int),
{
    if pattern.len() > text.len() || at > text.len() - pattern.len() {
        return false;
    }
    let mut i: usize = 0;
    while i < pattern.len()
        invariant
            at + pattern.len() <= text.len(),
            i <= pattern.len(),
            text@.subrange(at as int, at + i) == pattern@.take(i as int),
        decreases pattern.len() - i,
    {
        if text[at + i] != pattern[i] {
            assert(text@.subrange(at as int, at + pattern.len())[i as int] != pattern@[i as int]);
            return false;
        }
        assert(text@.subrange(at as int, at + i + 1) == text@.subrange(at as int, at + i).push(
            text@[at + i],
        ));
        assert(pattern@.take(i + 1) == pattern@.take(i as int).push(pattern@[i as int]));
        i = i + 1;
    }
    assert(pattern@.take(pattern.len() as int) == pattern@);
    true
}

/// The first position at or after `from` at which `pattern` stands in
/// `text`.
pub fn find(text: &[char], pattern: &[char], from: usize) -> (found: Option<usize>)
    ensures
        match found {
            Some(at) => find_from(text@, pattern@, from as int) == Some(at as int),
            None => find_from(text@, pattern@, from as int) is None,
        },
{
    if pattern.len() > text.len() {
        return None;
    }
    let last: usize = text.len() - pattern.len();
    let mut at: usize = from;
    while at <= last
        invariant
            last == text.len() - pattern.len(),
            from <= at,
            find_from(text@, pattern@, from as int) == find_from(text@, pattern@, at as int),
        decreases last + 1 - at,
    {
        if matches_at(text, pattern, at) {
            return Some(at);
        }
        if at == last {
            assert(find_from(text@, pattern@, at + 1) is None);
            return None;
        }
        at = at + 1;
    }
    None
}

/// Tells whether `pattern` stands somewhere in `text`.
pub fn includes(text: &[char], pattern: &[char]) -> (found: bool)
    ensures
        found == contains(text@, pattern@),
{
    proof {
        lemma_contains_iff_found(text@, pattern@);
    }
    find(text, pattern, 0).is_some()
}

/// Tells whether `text` ends with `suffix`.
pub fn has_suffix(text: &[char], suffix: &[char]) -> (found: bool)
    ensures
        found == ends_with(text@, suffix@),
{
    if suffix.len() > text.len() {
        false
    } else {
        matches_at(text, suffix, text.len() - suffix.len())
    }
}

/// Tells whether `c` is one of the digits `0` to `9`.
pub fn digit(c: char) -> (yes: bool)
    ensures
        yes == is_digit(c),
{
    '0' <= c && c <= '9'
}

/// The number that the digit `c` stands for.
pub(crate) fn value_of_digit(c: char) -> (value: u8)
    requires
        is_digit(c),
    ensures
        value == digit_value(c),
        value <= 9,
{
    (c as u32 - '0' as u32) as u8
}

/// The pieces of `text` between occurrences of `separator`; one piece more
/// than there are separators, so at least one.
pub open spec fn split(text: Seq<char>, separator: char) -> Seq<Seq<char>>
    decreases text.len(),
{
    match find_from(text, seq![separator], 0) {
        None => seq![text],
        Some(at) => {
            if 0 <= at < text.len() {
                seq![text.take(at)] + split(text.skip(at + 1), separator)
            } else {
                seq![text]
            }
        },
    }
}

/// `line` without a carriage return at its end.
pub open spec fn without_return(line: Seq<char>) -> Seq<char> {
    if line.len() > 0 && line.last() == '\r' {
        line.drop_last()
    } else {
        line
    }
}

/// The lines that the pieces of a text between line feeds make: each piece
/// that a line feed ended loses a carriage return at its end, and the piece
/// after the last line feed counts only if something stands in it.
pub open spec fn lines_of_pieces(pieces: Seq<Seq<char>>) -> Seq<Seq<char>>
    decreases pieces.len(),
{
    if pieces.len() == 0 {
        Seq::empty()
    } else if pieces.len() == 1 {
        if pieces[0].len() == 0 {
            Seq::empty()
        } else {
            pieces
        }
    } else {
        seq![without_return(pieces[0])] + lines_of_pieces(pieces.skip(1))
    }
}

/// The lines of `text`. A line ends at a line feed, or at a carriage return
/// followed by a line feed; the last line may end with the text.
pub open spec fn lines_of(text: Seq<char>) -> Seq<Seq<char>> {
    lines_of_pieces(split(text, '\n'))
}

/// The views of a list of slices, in order.
pub open spec fn texts(pieces: Seq<&[char]>) -> Seq<Seq<char>> {
    pieces.map_values(|piece: &[char]| piece@)
}

/// Cuts `text` at each occurrence of `separator`.
pub fn split_on<'a>(text: &'a [char], separator: char) -> (pieces: Vec<&'a [char]>)
    ensures
        texts(pieces@) == split(text@, separator),
{
    let mark: [char; 1] = [separator];
    assert(mark@ =~= seq![separator]);
    let mut pieces: Vec<&'a [char]> = Vec::new();
    let mut from: usize = 0;
    assert(text@.skip(0) =~= text@);
    loop
        invariant
            from <= text.len(),
            mark@ == seq![separator],
            texts(pieces@) + split(text@.skip(from as int), separator) == split(text@, separator),
        decreases text.len() - from,
    {
        let rest = slice_subrange(text, from, text.len());
        assert(rest@ =~= text@.skip(from as int));
        match find(rest, mark.as_slice(), 0) {
            None => {
                pieces.push(rest);
                proof {
                    assert(texts(pieces@) =~= texts(pieces@.drop_last()) + seq![rest@]);
                }
                return pieces;
            },
            Some(at) => {
                proof {
                    lemma_find_from(rest@, seq![separator], 0);
                }
                let piece = slice_subrange(rest, 0, at);
                pieces.push(piece);
                proof {
                    assert(piece@ =~= rest@.take(at as int));
                    assert(rest@.skip(at + 1) =~= text@.skip(from + at + 1));
                    assert(texts(pieces@) =~= texts(pieces@.drop_last()) + seq![piece@]);
                }
                from = from + at + 1;
            },
        }
    }
}

/// The lines of `text`, as [`lines_of`] defines them.
pub fn split_lines<'a>(text: &'a [char]) -> (lines: Vec<&'a [char]>)
    ensures
        texts(lines@) == lines_of(text@),
{
    let pieces = split_on(text, '\n');
    let mut lines: Vec<&'a [char]> = Vec::new();
    let mut i: usize = 0;
    assert(pieces@.skip(0) =~= pieces@);
    assert(texts(pieces@).skip(0) =~= texts(pieces@));
    while i < pieces.len()
        invariant
            i <= pieces.len(),
            texts(lines@) + lines_of_pieces(texts(pieces@).skip(i as int)) == lines_of_pieces(
                texts(pieces@),
            ),
        decreases pieces.len() - i,
    {
        let piece = pieces[i];
        let ghost rest = texts(pieces@).skip(i as int);
        assert(rest[0] == piece@);
        assert(rest.skip(1) =~= texts(pieces@).skip(i + 1));
        if i + 1 == pieces.len() {
            if piece.len() > 0 {
                lines.push(piece);
                assert(texts(lines@) =~= texts(lines@.drop_last()) + seq![piece@]);
                assert(rest =~= seq![piece@]);
            }
        } else {
            let line = if piece.len() > 0 && piece[piece.len() - 1] == '\r' {
                slice_subrange(piece, 0, piece.len() - 1)
            } else {
                piece
            };
            assert(line@ =~= without_return(piece@));
            lines.push(line);
            assert(texts(lines@) =~= texts(lines@.drop_last()) + seq![line@]);
        }
        i = i + 1;
    }
    assert(texts(pieces@).skip(pieces.len() as int) =~= Seq::<Seq<char>>::empty());
    lines
}

/// Ten to the power `k`.
pub open spec fn pow10(k: nat) -> nat
    decreases k,
{
    if k == 0 {
        1
    } else {
        10 * pow10((k - 1) as nat)
    }
}

/// A power of ten is positive.
pub proof fn lemma_pow10_positive(k: nat)
    ensures
        pow10(k) > 0,
    decreases k,
{
    if k > 0 {
        lemma_pow10_positive((k - 1) as nat);
    }
}

/// A number does not shrink when digits are written after it.
pub proof fn lemma_prefix_value(digits: Seq<char>, n: int)
    requires
        0 <= n <= digits.len(),
    ensures
        decimal_value(digits.take(n)) <= decimal_value(digits),
    decreases digits.len() - n,
{
    if n == digits.len() {
        assert(digits.take(n) =~= digits);
    } else {
        lemma_prefix_value(digits, n + 1);
        assert(digits.take(n + 1).drop_last() =~= digits.take(n));
    }
}

/// A number of `k` digits is below ten to the power `k`.
pub proof fn lemma_value_below_power(digits: Seq<char>)
    requires
        all_digits(digits),
    ensures
        decimal_value(digits) < pow10(digits.len()),
    decreases digits.len(),
{
    if digits.len() > 0 {
        lemma_value_below_power(digits.drop_last());
        assert(is_digit(digits[digits.len() - 1]));
    }
}

/// Tells whether `text` consists of digits only.
pub fn only_digits(text: &[char]) -> (yes: bool)
    ensures
        yes == all_digits(text@),
{
    let mut i: usize = 0;
    while i < text.len()
        invariant
            i <= text.len(),
            forall|k: int| 0 <= k < i ==> is_digit(#[trigger] text@[k]),
        decreases text.len() - i,
    {
        if !digit(text[i]) {
            return false;
        }
        i = i + 1;
    }
    true
}

/// The value of a run of digits, or `None` if it does not fit in 64 bits.
pub(crate) fn value_of_digits(digits: &[char]) -> (value: Option<u64>)
    requires
        all_digits(digits@),
    ensures
        match value {
            Some(v) => v == decimal_value(digits@),
            None => decimal_value(digits@) > u64::MAX,
        },
{
    let mut value: u64 = 0;
    let mut i: usize = 0;
    while i < digits.len()
        invariant
            i <= digits.len(),
            all_digits(digits@),
            value == decimal_value(digits@.take(i as int)),
        decreases digits.len() - i,
    {
        let d = value_of_digit(digits[i]);
        proof {
            assert(digits@.take(i + 1).drop_last() =~= digits@.take(i as int));
            lemma_prefix_value(digits@, i + 1);
        }
        let next = match value.checked_mul(10) {
            Some(tens) => tens.checked_add(d as u64),
            None => None,
        };
        match next {
            Some(v) => {
                value = v;
            },
            None => {
                return None;
            },
        }
        i = i + 1;
    }
    proof {
        assert(digits@.take(digits.len() as int) =~= digits@);
    }
    Some(value)
}

/// Kinds of characters that a scan can run over.
#[derive(Clone, Copy, Debug, PartialEq, Eq, Structural)]
pub enum CharClass {
    /// The digits `0` to `9`.
    Digit,
    /// A space or a tab.
    Blank,
    /// What a written number is made of: digits, points and commas.
    Numeric,
}

/// `c` belongs to `class`.
pub open spec fn in_class(c: char, class: CharClass) -> bool {
    match class {
        CharClass::Digit => is_digit(c),
        CharClass::Blank => c == ' ' || c == '\t',
        CharClass::Numeric => is_digit(c) || c == '.' || c == ',',
    }
}

/// Where the longest run of characters of `class` that begins at `from`
/// ends: the position of the first character at or after `from` that is not
/// of `class`, or the end of the text. `from` itself where it is not a
/// position of the text.
pub open spec fn run_end(text: Seq<char>, class: CharClass, from: int) -> int
    decreases text.len() - from,
{
    if 0 <= from < text.len() && in_class(text[from], class) {
        run_end(text, class, from + 1)
    } else {
        from
    }
}

/// A run ends at or after its start and within the text, and everything in
/// it is of its class.
pub proof fn lemma_run_end(text: Seq<char>, class: CharClass, from: int)
    requires
        0 <= from <= text.len(),
    ensures
        from <= run_end(text, class, from) <= text.len(),
        forall|i: int| from <= i < run_end(text, class, from) ==> in_class(#[trigger] text[i], class),
        run_end(text, class, from) < text.len() ==> !in_class(
            text[run_end(text, class, from)],
            class,
        ),
    decreases text.len() - from,
{
    if from < text.len() && in_class(text[from], class) {
        lemma_run_end(text, class, from + 1);
    }
}

/// Tells whether `c` belongs to `class`.
pub fn is_of(c: char, class: CharClass) -> (yes: bool)
    ensures
        yes == in_class(c, class),
{
    match class {
        CharClass::Digit => digit(c),
        CharClass::Blank => c == ' ' || c == '\t',
        CharClass::Numeric => digit(c) || c == '.' || c == ',',
    }
}

/// Runs over the characters of `class` from position `from` and tells where
/// the run ends.
pub(crate) fn scan(text: &[char], class: CharClass, from: usize) -> (end: usize)
    requires
        from <= text@.len(),
    ensures
        end == run_end(text@, class, from as int),
        from <= end <= text@.len(),
{
    let mut at: usize = from;
    while at < text.len() && is_of(text[at], class)
        invariant
            from <= at <= text.len(),
            run_end(text@, class, from as int) == run_end(text@, class, at as int),
        decreases text.len() - at,
    {
        at = at + 1;
    }
    at
}

/// Tells whether `word` is the three letters `a`, `b`, `c`.
pub fn is_word3(word: &[char], a: char, b: char, c: char) -> (yes: bool)
    ensures
        yes == (word@ == seq![a, b, c]),
{
    if word.len() == 3 && word[0] == a && word[1] == b && word[2] == c {
        assert(word@ =~= seq![a, b, c]);
        true
    } else {
        assert(word@.len() == 3 ==> seq![a, b, c][0] == a && seq![a, b, c][1] == b && seq![
            a,
            b,
            c,
        ][2] == c);
        false
    }
}

} // verus!
