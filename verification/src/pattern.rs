//! Regular expressions, by the `regex` crate.

use regex::Regex;
use vstd::prelude::*;

verus! {

/// What the leftmost match of the regular expression `pattern` in `text`
/// captured in its group `group`: `None` where `pattern` is no valid
/// expression, where it matches nowhere in `text`, or where the group took
/// no part in the match.
pub uninterp spec fn capture_of(pattern: Seq<char>, group: nat, text: Seq<char>) -> Option<Seq<char>>;

/// Compiles `pattern` with [`regex::Regex::new`], searches `text` with
/// [`regex::Regex::captures`] and hands out what the group `group` of the
/// match holds.
///
/// Trusted: the outcome is a function of the pattern, the group and the
/// text.
#[verifier::external_body]
pub(crate) fn captured(pattern: &str, group: usize, text: &str) -> (found: Option<String>)
    ensures
        crate::models::text_model(found) == capture_of(pattern@, group as nat, text@),
{
    match Regex::new(pattern) {
        Ok(expression) => expression.captures(text).and_then(|caps| caps.get(group)).map(
            |m| m.as_str().to_string(),
        ),
        Err(_) => None,
    }
}

} // verus!
