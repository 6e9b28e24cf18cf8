//! The reader: from the outcome of reading the configuration file to the
//! application's name and version, or to the step that failed.
//!
//! The steps are taken in a fixed order and the first failure ends the
//! operation: the read, the parse, the name, the version.

use vstd::prelude::*;

use crate::error::{AppInfoError, Failure, Field};
use crate::json::{describe, parse, parsed, string_member, string_members};

verus! {

/// The name and the version, in that order, as sequences of characters.
pub type Info = (Seq<char>, Seq<char>);

/// The mathematical value of what [`extract_app_info`] and [`parse_app_info`]
/// return.
pub open spec fn outcome_view(outcome: Result<(String, String), AppInfoError>) -> Result<
    Info,
    Failure,
> {
    match outcome {
        Ok((name, version)) => Ok((name@, version@)),
        Err(error) => Err(error@),
    }
}

/// The mathematical value of what was read: the text of the file, or the
/// description of the I/O failure.
pub open spec fn read_view(read: Result<String, String>) -> Result<Seq<char>, Seq<char>> {
    match read {
        Ok(text) => Ok(text@),
        Err(description) => Err(description@),
    }
}

/// The mathematical value of what [`get_app_info`] returns.
pub open spec fn reply_view(reply: Result<(String, String), String>) -> Result<Info, Seq<char>> {
    match reply {
        Ok((name, version)) => Ok((name@, version@)),
        Err(message) => Err(message@),
    }
}

/// What a document with the given string members yields: the strings under
/// the two keys, the name first. A document without a string under the name's
/// key lacks the name, whatever it holds under the version's key.
pub open spec fn extracted(members: Map<Seq<char>, Seq<char>>) -> Result<Info, Failure> {
    if !members.contains_key(Field::ProductName.key()) {
        Err(Failure::MissingField(Field::ProductName))
    } else if !members.contains_key(Field::Version.key()) {
        Err(Failure::MissingField(Field::Version))
    } else {
        Ok((members[Field::ProductName.key()], members[Field::Version.key()]))
    }
}

/// What a configuration text yields: a parse failure with the parser's
/// description where the parser rejects the text, and otherwise what the
/// parsed document yields.
pub open spec fn app_info_of_text(text: Seq<char>) -> Result<Info, Failure> {
    match parsed(text) {
        Ok(members) => extracted(members),
        Err(description) => Err(Failure::Parse(description)),
    }
}

/// What the outcome of a read yields: an I/O failure with its description
/// where the read failed, and otherwise what the text yields.
pub open spec fn app_info_of_read(read: Result<Seq<char>, Seq<char>>) -> Result<Info, Failure> {
    match read {
        Ok(text) => app_info_of_text(text),
        Err(description) => Err(Failure::Io(description)),
    }
}

/// The reply to the caller of the operation: the pair, or the message of the
/// failure.
pub open spec fn reply_of_read(read: Result<Seq<char>, Seq<char>>) -> Result<Info, Seq<char>> {
    match app_info_of_read(read) {
        Ok(info) => Ok(info),
        Err(failure) => Err(failure.message()),
    }
}

/// Turns what was found under the key of `field` into the field's text, or
/// into the error that says the field is missing.
pub fn require_field(found: Option<&str>, field: Field) -> (outcome: Result<String, AppInfoError>)
    ensures
        match found {
            Some(text) => outcome matches Ok(owned) && owned@ == text@,
            None => outcome matches Err(error) && error == AppInfoError::MissingField(field),
        },
{
    match found {
        Some(text) => Ok(text.to_owned()),
        None => Err(AppInfoError::MissingField(field)),
    }
}

/// Extracts the name and the version from a parsed document.
///
/// Fails with `MissingField(ProductName)` if the document has no string under
/// `productName`, and without looking at the version; with
/// `MissingField(Version)` if it has the name but no string under `version`.
/// A member whose value is not a string counts as absent.
pub fn extract_app_info(doc: &serde_json::Value) -> (outcome: Result<
    (String, String),
    AppInfoError,
>)
    ensures
        outcome_view(outcome) == extracted(string_members(*doc)),
{
    let name = match require_field(
        string_member(doc, Field::ProductName.key_str()),
        Field::ProductName,
    ) {
        Ok(name) => name,
        Err(error) => {
            return Err(error);
        },
    };
    let version = match require_field(
        string_member(doc, Field::Version.key_str()),
        Field::Version,
    ) {
        Ok(version) => version,
        Err(error) => {
            return Err(error);
        },
    };
    Ok((name, version))
}

/// Parses `text` as a JSON document and extracts the name and the version.
///
/// Fails with `Parse` and the parser's description if the text is not one
/// well-formed JSON document, and otherwise as [`extract_app_info`] does.
pub fn parse_app_info(text: &str) -> (outcome: Result<(String, String), AppInfoError>)
    ensures
        outcome_view(outcome) == app_info_of_text(text@),
{
    match parse(text) {
        Ok(doc) => extract_app_info(&doc),
        Err(error) => Err(AppInfoError::Parse(describe(&error))),
    }
}

/// The whole operation but for the read itself: takes the outcome of reading
/// the configuration file, the text or the description of the I/O failure,
/// and returns the name and the version, or the message of the first step
/// that failed.
///
/// A failed read is reported with the description it came with, a rejected
/// text with the parser's description, and a missing field with the fixed
/// sentence that names it.
pub fn get_app_info(read: Result<String, String>) -> (reply: Result<(String, String), String>)
    ensures
        reply_view(reply) == reply_of_read(read_view(read)),
{
    let outcome = match read {
        Ok(text) => parse_app_info(text.as_str()),
        Err(description) => Err(AppInfoError::Io(description)),
    };
    match outcome {
        Ok(info) => Ok(info),
        Err(error) => Err(error.message()),
    }
}

/// The operation gives the same reply each time it is asked about an
/// unchanged file: where two reads came out the same, the replies to them are
/// equal, the pair as well as the message.
pub proof fn lemma_same_read_same_reply(
    first_read: Result<String, String>,
    second_read: Result<String, String>,
    first_reply: Result<(String, String), String>,
    second_reply: Result<(String, String), String>,
)
    requires
        read_view(first_read) == read_view(second_read),
        reply_view(first_reply) == reply_of_read(read_view(first_read)),
        reply_view(second_reply) == reply_of_read(read_view(second_read)),
    ensures
        reply_view(first_reply) == reply_view(second_reply),
{
}

/// A failed read is answered with the very description it came with, and
/// nothing else is looked at.
pub proof fn lemma_failed_read_keeps_its_description(description: Seq<char>)
    ensures
        app_info_of_read(Err(description)) == Err::<Info, Failure>(Failure::Io(description)),
        reply_of_read(Err(description)) == Err::<Info, Seq<char>>(description),
{
}

/// A text that the parser rejects is answered with the parser's description
/// of it, never with a pair or with part of one.
pub proof fn lemma_rejected_text_keeps_the_parse_error(text: Seq<char>)
    ensures
        parsed(text) matches Err(description) ==> {
            &&& app_info_of_text(text) == Err::<Info, Failure>(Failure::Parse(description))
            &&& reply_of_read(Ok(text)) == Err::<Info, Seq<char>>(description)
        },
{
}

/// A document without a string under the name's key is answered with the
/// missing name, and what it holds under the version's key plays no part:
/// the answer is the same with any version put in and with the version taken
/// out.
pub proof fn lemma_missing_name_comes_before_version(
    members: Map<Seq<char>, Seq<char>>,
    version: Seq<char>,
)
    requires
        !members.contains_key(Field::ProductName.key()),
    ensures
        extracted(members) == Err::<Info, Failure>(Failure::MissingField(Field::ProductName)),
        extracted(members.insert(Field::Version.key(), version)) == extracted(members),
        extracted(members.remove(Field::Version.key())) == extracted(members),
{
    lemma_keys_differ();
}

/// A document that holds a string under each of the two keys yields exactly
/// those two strings, the name first, whatever else it holds.
pub proof fn lemma_complete_document_yields_the_pair(
    members: Map<Seq<char>, Seq<char>>,
    name: Seq<char>,
    version: Seq<char>,
)
    ensures
        extracted(
            members.insert(Field::ProductName.key(), name).insert(Field::Version.key(), version),
        ) == Ok::<Info, Failure>((name, version)),
{
    lemma_keys_differ();
}

/// The two fields are stored under different keys.
pub proof fn lemma_keys_differ()
    ensures
        Field::ProductName.key() != Field::Version.key(),
{
    reveal_strlit("productName");
    reveal_strlit("version");
    assert(Field::ProductName.key().len() == 11);
    assert(Field::Version.key().len() == 7);
}

} // verus!
