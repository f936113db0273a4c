//! Putting text together: numbers in decimal, lists joined, and forms with
//! values filled in.

use crate::text::string_of;
use vstd::prelude::*;

verus! {

/// The character for a number below ten.
pub open spec fn digit_char(d: nat) -> char {
    if d == 0 {
        '0'
    } else if d == 1 {
        '1'
    } else if d == 2 {
        '2'
    } else if d == 3 {
        '3'
    } else if d == 4 {
        '4'
    } else if d == 5 {
        '5'
    } else if d == 6 {
        '6'
    } else if d == 7 {
        '7'
    } else if d == 8 {
        '8'
    } else {
        '9'
    }
}

/// `n` written in base ten, without leading zeros.
pub open spec fn decimal_text(n: nat) -> Seq<char>
    decreases n,
{
    if n < 10 {
        seq![digit_char(n)]
    } else {
        decimal_text(n / 10).push(digit_char(n % 10))
    }
}

/// The character for the number `d`, which is below ten.
fn char_of_digit(d: u64) -> (c: char)
    requires
        d < 10,
    ensures
        c == digit_char(d as nat),
{
    if d == 0 {
        '0'
    } else if d == 1 {
        '1'
    } else if d == 2 {
        '2'
    } else if d == 3 {
        '3'
    } else if d == 4 {
        '4'
    } else if d == 5 {
        '5'
    } else if d == 6 {
        '6'
    } else if d == 7 {
        '7'
    } else if d == 8 {
        '8'
    } else {
        '9'
    }
}

/// Writes `n` in base ten behind what `out` holds.
fn push_decimal(n: u64, out: &mut Vec<char>)
    ensures
        final(out)@ == old(out)@ + decimal_text(n as nat),
    decreases n,
{
    if n >= 10 {
        push_decimal(n / 10, out);
    }
    out.push(char_of_digit(n % 10));
    assert(out@ =~= old(out)@ + decimal_text(n as nat));
}

/// `n` written in base ten.
pub fn decimal_string(n: u64) -> (s: String)
    ensures
        s@ == decimal_text(n as nat),
{
    let mut digits: Vec<char> = Vec::new();
    push_decimal(n, &mut digits);
    assert(digits@ =~= decimal_text(n as nat));
    string_of(digits.as_slice())
}

/// The views of a list of strings, in order.
pub open spec fn string_texts(items: Seq<String>) -> Seq<Seq<char>> {
    items.map_values(|item: String| item@)
}

/// The views of a list of string slices, in order.
pub open spec fn str_texts(items: Seq<&str>) -> Seq<Seq<char>> {
    items.map_values(|item: &str| item@)
}

/// `items` in a row with `separator` between each two.
pub open spec fn joined_with(items: Seq<Seq<char>>, separator: Seq<char>) -> Seq<char>
    decreases items.len(),
{
    if items.len() == 0 {
        Seq::empty()
    } else if items.len() == 1 {
        items[0]
    } else {
        joined_with(items.drop_last(), separator) + separator + items.last()
    }
}

/// `items` in a row with `separator` between each two.
pub fn join(items: &[String], separator: &str) -> (s: String)
    ensures
        s@ == joined_with(string_texts(items@), separator@),
{
    let mut s = String::new();
    let mut i: usize = 0;
    assert(string_texts(items@).take(0) =~= Seq::<Seq<char>>::empty());
    while i < items.len()
        invariant
            i <= items.len(),
            s@ == joined_with(string_texts(items@).take(i as int), separator@),
        decreases items.len() - i,
    {
        proof {
            let seen = string_texts(items@).take(i + 1);
            assert(seen.drop_last() =~= string_texts(items@).take(i as int));
            assert(seen.last() == items@[i as int]@);
        }
        if i > 0 {
            s.append(separator);
        } else {
            assert(s@ + items@[i as int]@ =~= items@[i as int]@);
        }
        s.append(items[i].as_str());
        i = i + 1;
    }
    assert(string_texts(items@).take(items.len() as int) =~= string_texts(items@));
    s
}

/// The value for gap `i` of a form: `values[i]`, or nothing where there is
/// no such value.
pub open spec fn value_for(values: Seq<Seq<char>>, i: int) -> Seq<char> {
    if 0 <= i < values.len() {
        values[i]
    } else {
        Seq::empty()
    }
}

/// A form filled in: the pieces of the form in order, with one value in
/// each gap between two pieces, the first value in the first gap.
pub open spec fn filled(pieces: Seq<Seq<char>>, values: Seq<Seq<char>>) -> Seq<char>
    decreases pieces.len(),
{
    if pieces.len() == 0 {
        Seq::empty()
    } else if pieces.len() == 1 {
        pieces[0]
    } else {
        filled(pieces.drop_last(), values) + value_for(values, pieces.len() - 2) + pieces.last()
    }
}

/// Fills the gaps between the pieces of a form with values.
pub fn fill(pieces: &[&str], values: &[&str]) -> (s: String)
    ensures
        s@ == filled(str_texts(pieces@), str_texts(values@)),
{
    let mut s = String::new();
    let mut i: usize = 0;
    assert(str_texts(pieces@).take(0) =~= Seq::<Seq<char>>::empty());
    while i < pieces.len()
        invariant
            i <= pieces.len(),
            s@ == filled(str_texts(pieces@).take(i as int), str_texts(values@)),
        decreases pieces.len() - i,
    {
        proof {
            let seen = str_texts(pieces@).take(i + 1);
            assert(seen.drop_last() =~= str_texts(pieces@).take(i as int));
            assert(seen.last() == pieces@[i as int]@);
        }
        if i > 0 {
            if i - 1 < values.len() {
                assert(str_texts(values@)[i - 1] == values@[i - 1]@);
                s.append(values[i - 1]);
            } else {
                assert(s@ + Seq::<char>::empty() =~= s@);
            }
        } else {
            assert(s@ + pieces@[i as int]@ =~= pieces@[i as int]@);
        }
        s.append(pieces[i]);
        i = i + 1;
    }
    assert(str_texts(pieces@).take(pieces.len() as int) =~= str_texts(pieces@));
    s
}

} // verus!
