//! The boundary to `serde_json`: the parser and the accessors the reader
//! calls, each with the contract that the rest of the crate relies on.
//!
//! Nothing in this module is proved. A proof elsewhere in the crate that
//! speaks of a parsed document holds as far as these contracts are true of
//! `serde_json`.

use vstd::prelude::*;

verus! {

/// A parsed JSON document. Its inside is not visible to proofs; what the
/// reader can learn of it is named by [`string_members`].
#[verifier::external_type_specification]
#[verifier::external_body]
pub struct ExValue(serde_json::Value);

/// The error with which `serde_json` rejects a text. Its description is named
/// by [`error_text`].
#[verifier::external_type_specification]
#[verifier::external_body]
pub struct ExError(serde_json::Error);

/// The string-valued members at the top level of `doc`: the map that takes
/// the name of each member of a JSON object whose value is a JSON string to
/// that string. A member with a value of another kind is not in the map, and
/// a document that is not an object has no members.
pub uninterp spec fn string_members(doc: serde_json::Value) -> Map<Seq<char>, Seq<char>>;

/// The description that `serde_json` gives of `error`.
pub uninterp spec fn error_text(error: serde_json::Error) -> Seq<char>;

/// What `serde_json::from_str` makes of `text`: the string members of the
/// document it returns, or the description of the error it returns.
pub uninterp spec fn parsed(text: Seq<char>) -> Result<Map<Seq<char>, Seq<char>>, Seq<char>>;

/// Calls `serde_json::from_str` to parse `text` as one JSON document.
///
/// The contract claims only that the outcome is determined by the text:
/// whether the text is accepted, and then which string members the document
/// has, or else how the error is described, is what [`parsed`] names.
#[verifier::external_body]
pub(crate) fn parse(text: &str) -> (outcome: Result<serde_json::Value, serde_json::Error>)
    ensures
        match outcome {
            Ok(doc) => parsed(text@) == Ok::<Map<Seq<char>, Seq<char>>, Seq<char>>(
                string_members(doc),
            ),
            Err(error) => parsed(text@) == Err::<Map<Seq<char>, Seq<char>>, Seq<char>>(
                error_text(error),
            ),
        },
{
    serde_json::from_str(text)
}

/// Calls `to_string` on a `serde_json::Error`, which formats it through its
/// `Display` impl.
///
/// The contract claims that the text is the one [`error_text`] names.
#[verifier::external_body]
pub(crate) fn describe(error: &serde_json::Error) -> (text: String)
    ensures
        text@ == error_text(*error),
{
    error.to_string()
}

/// Indexes `doc` by `key` and calls `serde_json::Value::as_str` on what is
/// found there.
///
/// Indexing a `Value` by a string gives the member of that name when the
/// value is an object that has one, and `Value::Null` otherwise; `as_str`
/// gives the text of a `Value::String` and `None` for any other value. The
/// contract claims accordingly that the result is the entry of
/// [`string_members`] under `key`, and `None` where there is no such entry.
#[verifier::external_body]
pub(crate) fn string_member<'a>(doc: &'a serde_json::Value, key: &str) -> (found: Option<&'a str>)
    ensures
        match found {
            Some(text) => string_members(*doc).contains_key(key@)
                && string_members(*doc)[key@] == text@,
            None => !string_members(*doc).contains_key(key@),
        },
{
    doc[key].as_str()
}

} // verus!
