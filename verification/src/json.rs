//! JSON, as the `serde_json` crate reads and writes it.
//!
//! A parsed document is a `serde_json::Value`, which is opaque here: what
//! the crate's functions make of a text or of a value is given a name, and
//! the envelope operations are stated over those names.

use vstd::prelude::*;

verus! {

#[verifier::external_type_specification]
#[verifier::external_body]
pub struct ExJsonValue(serde_json::Value);

#[verifier::external_type_specification]
#[verifier::external_body]
pub struct ExJsonError(serde_json::Error);

/// The document that `serde_json::from_str` reads out of `text`, or `None`
/// where it refuses the text.
pub uninterp spec fn json_parsed(text: Seq<char>) -> Option<serde_json::Value>;

/// The member `name` of `document` as `serde_json::Value::get` finds it,
/// or `None` where the document is no object or has no such member.
pub uninterp spec fn json_member(document: serde_json::Value, name: Seq<char>) -> Option<
    serde_json::Value,
>;

/// The characters of `value` as `serde_json::Value::as_str` gives them, or
/// `None` where the value is no string.
pub uninterp spec fn json_text(value: serde_json::Value) -> Option<Seq<char>>;

/// The JSON string literal, quotes and escapes included, that
/// `serde_json::to_string` writes for `text`, or `None` where it fails.
pub uninterp spec fn json_quoted(text: Seq<char>) -> Option<Seq<char>>;

/// Calls `serde_json::from_str` for a `serde_json::Value`. The contract
/// names what comes back and says no more of it.
#[verifier::external_body]
pub(crate) fn parse_json(text: &str) -> (r: Result<serde_json::Value, serde_json::Error>)
    ensures
        r matches Ok(document) ==> json_parsed(text@) == Some(document),
        r is Err ==> json_parsed(text@) is None,
{
    serde_json::from_str::<serde_json::Value>(text)
}

/// Calls `serde_json::Value::get` with a member name. The contract names
/// what comes back and says no more of it.
#[verifier::external_body]
pub(crate) fn member_of<'a>(document: &'a serde_json::Value, name: &str) -> (r: Option<
    &'a serde_json::Value,
>)
    ensures
        r matches Some(value) ==> json_member(*document, name@) == Some(*value),
        r is None ==> json_member(*document, name@) is None,
{
    document.get(name)
}

/// `serde_json::Value::as_str` returns the characters of a string value
/// and `None` for every other value. The contract names what comes back
/// and says no more of it.
pub assume_specification<'a>[ serde_json::Value::as_str ](value: &'a serde_json::Value) -> (r:
    Option<&'a str>)
    ensures
        r matches Some(text) ==> json_text(*value) == Some(text@),
        r is None ==> json_text(*value) is None,
;

/// Calls `serde_json::to_string` on a text, which writes the text as a
/// JSON string literal. The contract names what comes back and says no
/// more of it.
#[verifier::external_body]
pub(crate) fn quote_json(text: &str) -> (r: Result<String, serde_json::Error>)
    ensures
        r matches Ok(literal) ==> json_quoted(text@) == Some(literal@),
        r is Err ==> json_quoted(text@) is None,
{
    serde_json::to_string(text)
}

} // verus!
