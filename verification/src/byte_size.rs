//! Sizes as the transfer tool prints them: a decimal number and a unit, such
//! as `1.50 GiB`, `500MB` or `42B`.

use crate::text::{
    all_digits, decimal_value, digit_value, ends_with, find, find_from, has_suffix,
    lemma_find_from, lemma_pow10_positive, only_digits, pow10, to_chars, value_of_digit,
    value_of_digits,
};
use vstd::arithmetic::div_mod::{lemma_div_denominator, lemma_hoist_over_denominator};
use vstd::prelude::*;
use vstd::slice::slice_subrange;

verus! {

/// Why a size cannot be read.
#[derive(Clone, Copy, Debug, PartialEq, Eq, Structural)]
pub enum ByteSizeError {
    /// Nothing stands where the number should.
    NoNumber,
    /// The number holds something other than digits and at most one point,
    /// or a point where the unit allows whole numbers only.
    InvalidNumber,
    /// A whole number of bytes that does not fit in 64 bits.
    TooLarge,
}

/// Commas and spaces carry no meaning in a size.
pub open spec fn is_separator(c: char) -> bool {
    c == ',' || c == ' '
}

/// `text` with its commas and spaces taken out.
pub open spec fn without_separators(text: Seq<char>) -> Seq<char> {
    text.filter(|c: char| !is_separator(c))
}

/// How many letters the unit at the end of `text` has: 3 for `KiB`, `MiB`,
/// `GiB` and `TiB`, 2 for `KB`, `MB`, `GB` and `TB`, 1 for `B`, and 0 where
/// `text` ends in none of these.
pub open spec fn unit_letters(text: Seq<char>) -> nat {
    if ends_with(text, seq!['K', 'i', 'B']) || ends_with(text, seq!['M', 'i', 'B']) || ends_with(
        text,
        seq!['G', 'i', 'B'],
    ) || ends_with(text, seq!['T', 'i', 'B']) {
        3
    } else if ends_with(text, seq!['K', 'B']) || ends_with(text, seq!['M', 'B']) || ends_with(
        text,
        seq!['G', 'B'],
    ) || ends_with(text, seq!['T', 'B']) {
        2
    } else if ends_with(text, seq!['B']) {
        1
    } else {
        0
    }
}

/// How many bytes one of the unit at the end of `text` is. Units with an
/// `i` count in steps of 1024, the others in steps of 1000.
pub open spec fn unit_multiplier(text: Seq<char>) -> nat {
    if ends_with(text, seq!['K', 'i', 'B']) {
        1024
    } else if ends_with(text, seq!['K', 'B']) {
        1000
    } else if ends_with(text, seq!['M', 'i', 'B']) {
        1_048_576
    } else if ends_with(text, seq!['M', 'B']) {
        1_000_000
    } else if ends_with(text, seq!['G', 'i', 'B']) {
        1_073_741_824
    } else if ends_with(text, seq!['G', 'B']) {
        1_000_000_000
    } else if ends_with(text, seq!['T', 'i', 'B']) {
        1_099_511_627_776
    } else if ends_with(text, seq!['T', 'B']) {
        1_000_000_000_000
    } else {
        1
    }
}

/// A count of bytes written as a whole number: one or more digits, with a
/// value that fits in 64 bits.
pub open spec fn whole_number(digits: Seq<char>) -> Result<u64, ByteSizeError> {
    if digits.len() == 0 {
        Err(ByteSizeError::NoNumber)
    } else if !all_digits(digits) {
        Err(ByteSizeError::InvalidNumber)
    } else if decimal_value(digits) > u64::MAX {
        Err(ByteSizeError::TooLarge)
    } else {
        Ok(decimal_value(digits) as u64)
    }
}

/// The digits of `number` before its first point; all of it if it has none.
pub open spec fn whole_part(number: Seq<char>) -> Seq<char> {
    match find_from(number, seq!['.'], 0) {
        Some(point) => number.take(point),
        None => number,
    }
}

/// The digits of `number` after its first point; none if it has no point.
pub open spec fn fraction_part(number: Seq<char>) -> Seq<char> {
    match find_from(number, seq!['.'], 0) {
        Some(point) => number.skip(point + 1),
        None => Seq::empty(),
    }
}

/// The bytes in the fraction `0.fraction` of a unit of `multiplier` bytes,
/// rounded down to a whole byte.
pub open spec fn fraction_bytes(fraction: Seq<char>, multiplier: nat) -> nat {
    (decimal_value(fraction) * multiplier) / pow10(fraction.len())
}

/// The bytes in `whole.fraction` units of `multiplier` bytes each, rounded
/// down to a whole byte.
pub open spec fn scaled(whole: Seq<char>, fraction: Seq<char>, multiplier: nat) -> nat {
    decimal_value(whole) * multiplier + fraction_bytes(fraction, multiplier)
}

/// A size written in a unit of `multiplier` bytes: digits with at most one
/// point among them and at least one digit in all. Its value in bytes is
/// rounded down, and held at the largest 64-bit number if it is above it.
pub open spec fn scaled_number(number: Seq<char>, multiplier: nat) -> Result<u64, ByteSizeError> {
    let whole = whole_part(number);
    let fraction = fraction_part(number);
    if number.len() == 0 {
        Err(ByteSizeError::NoNumber)
    } else if !all_digits(whole) || !all_digits(fraction) || whole.len() + fraction.len() == 0 {
        Err(ByteSizeError::InvalidNumber)
    } else if scaled(whole, fraction, multiplier) > u64::MAX {
        Ok(u64::MAX)
    } else {
        Ok(scaled(whole, fraction, multiplier) as u64)
    }
}

/// The size in bytes that `text` states.
///
/// Commas and spaces are dropped first. What is left is a number followed by
/// a unit. With `B` or no unit the number is a whole number of bytes. With a
/// larger unit it may have a fraction.
pub open spec fn byte_size_of(text: Seq<char>) -> Result<u64, ByteSizeError> {
    let compact = without_separators(text);
    let letters = unit_letters(compact);
    let number = compact.take(compact.len() - letters);
    if letters <= 1 {
        whole_number(number)
    } else {
        scaled_number(number, unit_multiplier(compact))
    }
}

/// A number with a leading digit is that digit times a power of ten, plus
/// the number that the other digits make.
pub proof fn lemma_leading_digit(first: char, rest: Seq<char>)
    ensures
        decimal_value(seq![first] + rest) == digit_value(first) * pow10(rest.len()) + decimal_value(
            rest,
        ),
    decreases rest.len(),
{
    let all = seq![first] + rest;
    let d = digit_value(first);
    if rest.len() == 0 {
        assert(all.drop_last() =~= Seq::<char>::empty());
        assert(decimal_value(all.drop_last()) == 0);
        assert(all.last() == first);
        assert(decimal_value(all) == d);
        assert(pow10(rest.len()) == 1);
        assert(d * pow10(rest.len()) == d) by (nonlinear_arith)
            requires
                pow10(rest.len()) == 1,
        ;
    } else {
        lemma_leading_digit(first, rest.drop_last());
        assert(all.drop_last() =~= seq![first] + rest.drop_last());
        assert(all.last() == rest.last());
        let p = pow10(rest.drop_last().len());
        let r = decimal_value(rest.drop_last());
        assert(pow10(rest.len()) == 10 * p);
        assert(decimal_value(all) == (d * p + r) * 10 + digit_value(rest.last()));
        assert(decimal_value(rest) == r * 10 + digit_value(rest.last()));
        assert((d * p + r) * 10 == d * pow10(rest.len()) + r * 10) by (nonlinear_arith)
            requires
                pow10(rest.len()) == 10 * p,
        ;
    }
}

/// The share of a fraction can be had digit by digit from its end: putting
/// a digit in front adds that digit's units and divides by ten.
pub proof fn lemma_fraction_step(first: char, rest: Seq<char>, multiplier: nat)
    ensures
        fraction_bytes(seq![first] + rest, multiplier) == (digit_value(first) * multiplier
            + fraction_bytes(rest, multiplier)) / 10,
{
    let d = digit_value(first) as int;
    let r = decimal_value(rest) as int;
    let m = multiplier as int;
    let p = pow10(rest.len()) as int;
    lemma_leading_digit(first, rest);
    lemma_pow10_positive(rest.len());
    assert(pow10(rest.len() + 1) == 10 * pow10(rest.len()));
    let n = (d * p + r) * m;
    assert(n == r * m + (d * m) * p) by (nonlinear_arith)
        requires
            n == (d * p + r) * m,
    ;
    assert(0 <= n) by (nonlinear_arith)
        requires
            n == (d * p + r) * m,
            0 <= d,
            0 <= p,
            0 <= r,
            0 <= m,
    ;
    lemma_div_denominator(n, p, 10);
    lemma_hoist_over_denominator(r * m, d * m, p as nat);
    assert(p * 10 == 10 * p);
}

/// The bytes that the fraction `0.digits` of a unit of `multiplier` bytes
/// comes to, rounded down.
pub(crate) fn fraction_share(digits: &[char], multiplier: u64) -> (share: u64)
    requires
        all_digits(digits@),
        multiplier <= 1_099_511_627_776,
    ensures
        share == fraction_bytes(digits@, multiplier as nat),
        share <= multiplier,
{
    let mut share: u64 = 0;
    let mut at: usize = digits.len();
    proof {
        assert(digits@.skip(at as int) =~= Seq::<char>::empty());
        assert(decimal_value(Seq::<char>::empty()) == 0);
        assert(pow10(0) == 1);
        assert(0 * (multiplier as nat) == 0);
    }
    while at > 0
        invariant
            at <= digits.len(),
            all_digits(digits@),
            multiplier <= 1_099_511_627_776,
            share <= multiplier,
            share == fraction_bytes(digits@.skip(at as int), multiplier as nat),
        decreases at,
    {
        at = at - 1;
        let d = value_of_digit(digits[at]);
        proof {
            let rest = digits@.skip(at + 1);
            assert(digits@.skip(at as int) =~= seq![digits@[at as int]] + rest);
            lemma_fraction_step(digits@[at as int], rest, multiplier as nat);
            assert(d as u64 * multiplier <= 9 * multiplier) by (nonlinear_arith)
                requires
                    d <= 9,
            ;
        }
        share = (d as u64 * multiplier + share) / 10;
    }
    proof {
        assert(digits@.skip(0) =~= digits@);
    }
    share
}

/// Reads a count of bytes written as a whole number.
pub fn read_whole_number(digits: &[char]) -> (read: Result<u64, ByteSizeError>)
    ensures
        read == whole_number(digits@),
{
    if digits.len() == 0 {
        Err(ByteSizeError::NoNumber)
    } else if !only_digits(digits) {
        Err(ByteSizeError::InvalidNumber)
    } else {
        match value_of_digits(digits) {
            Some(v) => Ok(v),
            None => Err(ByteSizeError::TooLarge),
        }
    }
}

/// Reads a size written in a unit of `multiplier` bytes.
pub(crate) fn read_scaled_number(number: &[char], multiplier: u64) -> (read: Result<u64, ByteSizeError>)
    requires
        1 <= multiplier <= 1_099_511_627_776,
    ensures
        read == scaled_number(number@, multiplier as nat),
{
    if number.len() == 0 {
        return Err(ByteSizeError::NoNumber);
    }
    let point: [char; 1] = ['.'];
    assert(point@ =~= seq!['.']);
    let (whole, fraction) = match find(number, point.as_slice(), 0) {
        Some(at) => {
            proof {
                lemma_find_from(number@, seq!['.'], 0);
            }
            (slice_subrange(number, 0, at), slice_subrange(number, at + 1, number.len()))
        },
        None => (number, slice_subrange(number, 0, 0)),
    };
    assert(whole@ =~= whole_part(number@));
    assert(fraction@ =~= fraction_part(number@));
    if !only_digits(whole) || !only_digits(fraction) || (whole.len() == 0 && fraction.len() == 0) {
        return Err(ByteSizeError::InvalidNumber);
    }
    let share = fraction_share(fraction, multiplier);
    match value_of_digits(whole) {
        None => {
            proof {
                assert(decimal_value(whole@) * multiplier >= decimal_value(whole@))
                    by (nonlinear_arith)
                    requires
                        multiplier >= 1,
                ;
            }
            Ok(u64::MAX)
        },
        Some(units) => {
            proof {
                assert(units as u128 * multiplier as u128 <= 0xffff_ffff_ffff_ffff
                    * 1_099_511_627_776) by (nonlinear_arith)
                    requires
                        units <= 0xffff_ffff_ffff_ffff,
                        multiplier <= 1_099_511_627_776,
                ;
            }
            let total: u128 = units as u128 * multiplier as u128 + share as u128;
            if total > u64::MAX as u128 {
                Ok(u64::MAX)
            } else {
                Ok(total as u64)
            }
        },
    }
}

/// Tells whether `text` ends with the three letters of a binary unit that
/// begins with `prefix`.
fn ends_in_binary_unit(text: &[char], prefix: char) -> (yes: bool)
    ensures
        yes == ends_with(text@, seq![prefix, 'i', 'B']),
{
    let unit: [char; 3] = [prefix, 'i', 'B'];
    assert(unit@ =~= seq![prefix, 'i', 'B']);
    has_suffix(text, unit.as_slice())
}

/// Tells whether `text` ends with the two letters of a decimal unit that
/// begins with `prefix`.
fn ends_in_decimal_unit(text: &[char], prefix: char) -> (yes: bool)
    ensures
        yes == ends_with(text@, seq![prefix, 'B']),
{
    let unit: [char; 2] = [prefix, 'B'];
    assert(unit@ =~= seq![prefix, 'B']);
    has_suffix(text, unit.as_slice())
}

/// The unit at the end of `text`: the number of its letters and the bytes
/// that one of it is.
pub fn unit_at_end(text: &[char]) -> (unit: (usize, u64))
    ensures
        unit.0 == unit_letters(text@),
        unit.1 == unit_multiplier(text@),
        unit.0 <= text@.len(),
        1 <= unit.1 <= 1_099_511_627_776,
{
    let byte: [char; 1] = ['B'];
    assert(byte@ =~= seq!['B']);
    if ends_in_binary_unit(text, 'K') {
        (3, 1024)
    } else if ends_in_decimal_unit(text, 'K') {
        (2, 1000)
    } else if ends_in_binary_unit(text, 'M') {
        (3, 1_048_576)
    } else if ends_in_decimal_unit(text, 'M') {
        (2, 1_000_000)
    } else if ends_in_binary_unit(text, 'G') {
        (3, 1_073_741_824)
    } else if ends_in_decimal_unit(text, 'G') {
        (2, 1_000_000_000)
    } else if ends_in_binary_unit(text, 'T') {
        (3, 1_099_511_627_776)
    } else if ends_in_decimal_unit(text, 'T') {
        (2, 1_000_000_000_000)
    } else if has_suffix(text, byte.as_slice()) {
        (1, 1)
    } else {
        (0, 1)
    }
}

/// `text` with its commas and spaces taken out.
pub fn strip_separators(text: &[char]) -> (compact: Vec<char>)
    ensures
        compact@ == without_separators(text@),
{
    let mut compact: Vec<char> = Vec::new();
    let ghost keep = |c: char| !is_separator(c);
    proof {
        reveal(Seq::filter);
        assert(text@.take(0) =~= Seq::<char>::empty());
    }
    let mut i: usize = 0;
    while i < text.len()
        invariant
            i <= text.len(),
            keep == (|c: char| !is_separator(c)),
            compact@ == text@.take(i as int).filter(keep),
        decreases text.len() - i,
    {
        let c = text[i];
        proof {
            reveal(Seq::filter);
            assert(text@.take(i + 1).drop_last() =~= text@.take(i as int));
        }
        if c != ',' && c != ' ' {
            compact.push(c);
        }
        i = i + 1;
    }
    proof {
        assert(text@.take(text.len() as int) =~= text@);
    }
    compact
}

/// Reads the size in bytes that `text` states, such as `1.50 GiB`, `500MB`,
/// `42B` or `1,024`.
pub fn measure(text: &[char]) -> (size: Result<u64, ByteSizeError>)
    ensures
        size == byte_size_of(text@),
{
    let compact = strip_separators(text);
    let (letters, multiplier) = unit_at_end(compact.as_slice());
    let number = slice_subrange(compact.as_slice(), 0, compact.len() - letters);
    assert(number@ =~= compact@.take(compact@.len() - letters));
    if letters <= 1 {
        read_whole_number(number)
    } else {
        read_scaled_number(number, multiplier)
    }
}

/// Reads the size in bytes that `size_str` states, such as `1.50 GiB`,
/// `500MB`, `42B` or `1,024`.
///
/// Commas and spaces are ignored. Binary units (`KiB`, `MiB`, `GiB`, `TiB`)
/// count in steps of 1024, decimal ones (`KB`, `MB`, `GB`, `TB`) in steps of
/// 1000; with either the number may have a fraction, and the result is
/// rounded down and held at `u64::MAX`. With `B` or no unit the number is a
/// whole number of bytes.
pub fn parse_byte_size(size_str: &str) -> (size: Result<u64, ByteSizeError>)
    ensures
        size == byte_size_of(size_str@),
{
    let chars = to_chars(size_str);
    measure(chars.as_slice())
}

} // verus!
