//! The ways in which reading the application's information can fail.

use vstd::prelude::*;

verus! {

/// The name of the configuration file, relative to the working directory of
/// the process. The messages for a missing field name this file.
pub const CONFIG_FILE: &'static str = "tauri.conf.json";

/// A field that the reader extracts from the configuration document.
#[derive(Clone, Copy, Debug, PartialEq, Eq, Structural)]
pub enum Field {
    /// The display name of the application.
    ProductName,
    /// The version of the application.
    Version,
}

impl Field {
    /// The name of the top-level member that holds the field.
    pub open spec fn key(self) -> Seq<char> {
        match self {
            Field::ProductName => "productName"@,
            Field::Version => "version"@,
        }
    }

    /// The message reported when the document has no string under `key()`.
    pub open spec fn missing_message(self) -> Seq<char> {
        match self {
            Field::ProductName => "productName not found in tauri.conf.json"@,
            Field::Version => "version not found in tauri.conf.json"@,
        }
    }

    /// The name of the top-level member that holds the field.
    pub fn key_str(self) -> (key: &'static str)
        ensures
            key@ == self.key(),
    {
        match self {
            Field::ProductName => "productName",
            Field::Version => "version",
        }
    }
}

/// The mathematical value of an [`AppInfoError`]: the same variants, with
/// each text as a sequence of characters.
pub enum Failure {
    /// The read failed; holds the description of the I/O failure.
    Io(Seq<char>),
    /// The parser rejected the text; holds the parser's description.
    Parse(Seq<char>),
    /// The document has no string under the field's key.
    MissingField(Field),
}

impl Failure {
    /// The message shown for the failure. A failed read or parse is described
    /// by the text that came with it; a missing field by a fixed sentence.
    pub open spec fn message(self) -> Seq<char> {
        match self {
            Failure::Io(text) => text,
            Failure::Parse(text) => text,
            Failure::MissingField(field) => field.missing_message(),
        }
    }
}

/// Why the application's information could not be read.
#[derive(Debug, PartialEq, Eq)]
pub enum AppInfoError {
    /// The configuration file could not be read; holds the description of the
    /// I/O failure.
    Io(String),
    /// The text is not well-formed JSON; holds the parser's description.
    Parse(String),
    /// The document has no string under the field's key.
    MissingField(Field),
}

impl View for AppInfoError {
    type V = Failure;

    open spec fn view(&self) -> Failure {
        match self {
            AppInfoError::Io(text) => Failure::Io(text@),
            AppInfoError::Parse(text) => Failure::Parse(text@),
            AppInfoError::MissingField(field) => Failure::MissingField(*field),
        }
    }
}

impl AppInfoError {
    /// The message shown for the error.
    pub fn message(&self) -> (text: String)
        ensures
            text@ == self@.message(),
    {
        match self {
            AppInfoError::Io(text) => text.clone(),
            AppInfoError::Parse(text) => text.clone(),
            AppInfoError::MissingField(Field::ProductName) => {
                "productName not found in tauri.conf.json".to_owned()
            },
            AppInfoError::MissingField(Field::Version) => {
                "version not found in tauri.conf.json".to_owned()
            },
        }
    }
}

/// The message for a missing field names the field by its key and the
/// configuration file by its name.
pub proof fn lemma_missing_message_names_field_and_file(field: Field)
    ensures
        field.missing_message() == field.key() + " not found in "@ + CONFIG_FILE@,
{
    reveal_strlit("productName");
    reveal_strlit("version");
    reveal_strlit(" not found in ");
    reveal_strlit("tauri.conf.json");
    reveal_strlit("productName not found in tauri.conf.json");
    reveal_strlit("version not found in tauri.conf.json");
    assert(field.missing_message() =~= field.key() + " not found in "@ + CONFIG_FILE@);
}

} // verus!
