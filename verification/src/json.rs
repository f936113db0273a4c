//! JSON values, by the `serde_json` crate.
//!
//! A value is carried through unread. The functions here ask `serde_json`
//! about it; none of them is verified. Of a text nothing is claimed but
//! what `serde_json` makes of it. Of an object the claim is that it holds
//! its members: asked twice for a member, it gives the same.

use crate::models::text_model;
use serde_json::Value;
use vstd::prelude::*;

verus! {

/// A JSON value of any kind.
#[verifier::external_type_specification]
#[verifier::external_body]
pub struct ExValue(serde_json::Value);

/// Why a text is no JSON.
#[verifier::external_type_specification]
#[verifier::external_body]
pub struct ExJsonError(serde_json::Error);

/// Reads `text` as a JSON array with [`serde_json::from_str`] and hands out
/// its elements.
#[verifier::external_body]
pub(crate) fn parse_array(text: &str) -> (values: Result<Vec<Value>, serde_json::Error>) {
    serde_json::from_str(text)
}

/// What `serde_json` says of an error, by its `Display`.
#[verifier::external_body]
pub(crate) fn error_message(error: &serde_json::Error) -> (message: String) {
    error.to_string()
}

/// What a member of an object is, as far as it is read here: a text, a
/// whole number that fits in 64 bits unsigned, a truth value, or anything
/// else.
pub enum Member {
    Text(Seq<char>),
    Count(u64),
    Flag(bool),
    Other,
}

/// What the object `value` holds: its members by their names. A value that
/// is no object holds none.
pub uninterp spec fn members_of(value: Value) -> Map<Seq<char>, Member>;

/// Whether `value` is an object.
pub uninterp spec fn is_object_value(value: Value) -> bool;

/// The member `key` among `members`, if there is one.
pub open spec fn member_in(members: Map<Seq<char>, Member>, key: Seq<char>) -> Option<Member> {
    if members.contains_key(key) {
        Some(members[key])
    } else {
        None
    }
}

/// The text that the member `key` among `members` is, if there is such a
/// member and it is a text.
pub open spec fn text_in(members: Map<Seq<char>, Member>, key: Seq<char>) -> Option<Seq<char>> {
    match member_in(members, key) {
        Some(Member::Text(text)) => Some(text),
        _ => None,
    }
}

/// The number that the member `key` among `members` is, if there is such a
/// member and it is a whole number.
pub open spec fn count_in(members: Map<Seq<char>, Member>, key: Seq<char>) -> Option<u64> {
    match member_in(members, key) {
        Some(Member::Count(count)) => Some(count),
        _ => None,
    }
}

/// The truth value that the member `key` among `members` is, if there is
/// such a member and it is one.
pub open spec fn flag_in(members: Map<Seq<char>, Member>, key: Seq<char>) -> Option<bool> {
    match member_in(members, key) {
        Some(Member::Flag(flag)) => Some(flag),
        _ => None,
    }
}

/// Whether `value` is an object, by [`serde_json::Value::is_object`].
///
/// Trusted: the answer is a function of the value.
#[verifier::external_body]
pub(crate) fn is_object(value: &Value) -> (yes: bool)
    ensures
        yes == is_object_value(*value),
{
    value.is_object()
}

/// The member `key` of `value` as a text: [`serde_json::Value::get`], and
/// of what it finds [`serde_json::Value::as_str`]. `None` where `value` is
/// no object or has no such member, and where the member is no string.
///
/// Trusted: the answer is what the object holds under that name.
#[verifier::external_body]
pub(crate) fn member_text(value: &Value, key: &str) -> (text: Option<String>)
    ensures
        text_model(text) == text_in(members_of(*value), key@),
{
    value.get(key).and_then(|member| member.as_str()).map(|text| text.to_string())
}

/// The member `key` of `value` as a number: [`serde_json::Value::get`],
/// and of what it finds [`serde_json::Value::as_u64`]. `None` where `value`
/// is no object or has no such member, and where the member is no whole
/// number that fits in 64 bits unsigned.
///
/// Trusted: the answer is what the object holds under that name.
#[verifier::external_body]
pub(crate) fn member_count(value: &Value, key: &str) -> (count: Option<u64>)
    ensures
        count == count_in(members_of(*value), key@),
{
    value.get(key).and_then(|member| member.as_u64())
}

/// The member `key` of `value` as a truth value:
/// [`serde_json::Value::get`], and of what it finds
/// [`serde_json::Value::as_bool`]. `None` where `value` is no object or has
/// no such member, and where the member is neither `true` nor `false`.
///
/// Trusted: the answer is what the object holds under that name.
#[verifier::external_body]
pub(crate) fn member_flag(value: &Value, key: &str) -> (flag: Option<bool>)
    ensures
        flag == flag_in(members_of(*value), key@),
{
    value.get(key).and_then(|member| member.as_bool())
}

} // verus!
