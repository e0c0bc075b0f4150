//! Reading a configuration file: from what opening and reading the file
//! gave, to the value or the failure.
//!
//! A file that cannot be opened is a load failure whatever the reason, a
//! missing file included: no default value is made up for it.

use vstd::prelude::*;
use crate::codec::decode;
use crate::error::ConfyError;

verus! {

/// What came of opening a file and reading it to its end.
pub enum Fetched {
    /// The file could not be opened.
    Unopened(std::io::Error),
    /// The file was opened, but its content could not be read as text.
    Unread(std::io::Error),
    /// The whole content of the file.
    Text(String),
}

/// True where `outcome` is what reading owes for `fetched`: the text, or
/// the failure that keeps the cause under the kind of the step that failed.
pub open spec fn reads_as(fetched: Fetched, outcome: Result<String, ConfyError>) -> bool {
    match fetched {
        Fetched::Unopened(cause) => outcome is Err && outcome->Err_0
            == ConfyError::GeneralLoadError(cause),
        Fetched::Unread(cause) => outcome is Err && outcome->Err_0
            == ConfyError::ReadConfigurationFileError(cause),
        Fetched::Text(text) => outcome is Ok && outcome->Ok_0@ == text@,
    }
}

/// The text of the file, or the failure of the step that did not give it.
pub fn text_of(fetched: Fetched) -> (outcome: Result<String, ConfyError>)
    ensures
        reads_as(fetched, outcome),
{
    match fetched {
        Fetched::Unopened(cause) => Err(ConfyError::GeneralLoadError(cause)),
        Fetched::Unread(cause) => Err(ConfyError::ReadConfigurationFileError(cause)),
        Fetched::Text(text) => Ok(text),
    }
}

/// The value that the file holds. A file that was not opened or not read
/// gives that failure; a text that was read gives the decoded value or a
/// bad-data failure, and no other.
pub fn parse<T: serde::de::DeserializeOwned>(fetched: Fetched) -> (outcome: Result<T, ConfyError>)
    ensures
        match fetched {
            Fetched::Unopened(cause) => outcome is Err && outcome->Err_0
                == ConfyError::GeneralLoadError(cause),
            Fetched::Unread(cause) => outcome is Err && outcome->Err_0
                == ConfyError::ReadConfigurationFileError(cause),
            Fetched::Text(_) => outcome is Err ==> outcome->Err_0 is BadTomlData,
        },
{
    match text_of(fetched) {
        Ok(text) => decode(text.as_str()),
        Err(failure) => Err(failure),
    }
}

} // verus!
