//! The failures a configuration operation can end in.

use vstd::prelude::*;

verus! {

/// `std::io::Error`, carried through as the cause of a failed file operation.
#[verifier::external_type_specification]
#[verifier::external_body]
pub struct ExIoError(std::io::Error);

/// `toml::de::Error`, the cause of a document that does not parse.
#[verifier::external_type_specification]
#[verifier::external_body]
pub struct ExTomlDeError(toml::de::Error);

/// `toml::ser::Error`, the cause of a value that cannot be written as TOML.
#[verifier::external_type_specification]
#[verifier::external_body]
pub struct ExTomlSerError(toml::ser::Error);

/// Every way an operation of this library can fail. Each variant carries the
/// cause it was raised for, or a diagnostic text.
#[derive(Debug)]
pub enum ConfyError {
    /// The file's text is not a TOML document of the expected shape.
    BadTomlData(toml::de::Error),
    /// The directory that should hold the file could not be created.
    DirectoryCreationFailed(std::io::Error),
    /// The file could not be opened for reading.
    GeneralLoadError(std::io::Error),
    /// No directory can hold the file; the text says why.
    BadConfigDirectory(String),
    /// The value could not be written as TOML.
    SerializeTomlError(toml::ser::Error),
    /// Writing, flushing or moving the staged file failed.
    WriteConfigurationFileError(std::io::Error),
    /// The opened file could not be read to its end as text.
    ReadConfigurationFileError(std::io::Error),
    /// The staged file could not be opened for writing.
    OpenConfigurationFileError(std::io::Error),
}

impl ConfyError {
    /// The text that `message` renders for this error.
    pub open spec fn rendering(self) -> Seq<char> {
        match self {
            ConfyError::BadTomlData(_) => "Bad TOML data"@,
            ConfyError::DirectoryCreationFailed(_) => "Failed to create directory"@,
            ConfyError::GeneralLoadError(_) => "Failed to load configuration file"@,
            ConfyError::BadConfigDirectory(reason) => "Bad configuration directory: "@ + reason@,
            ConfyError::SerializeTomlError(_) => "Failed to serialize configuration data into TOML"@,
            ConfyError::WriteConfigurationFileError(_) => "Failed to write configuration file"@,
            ConfyError::ReadConfigurationFileError(_) => "Failed to read configuration file"@,
            ConfyError::OpenConfigurationFileError(_) => "Failed to open configuration file"@,
        }
    }

    /// True of a bad-directory failure with exactly this reason.
    pub open spec fn is_bad_directory(self, reason: Seq<char>) -> bool {
        match self {
            ConfyError::BadConfigDirectory(text) => text@ == reason,
            _ => false,
        }
    }

    /// Renders the error for a reader: the kind of failure, and for a bad
    /// directory the reason after a colon.
    pub fn message(&self) -> (text: String)
        ensures
            text@ == self.rendering(),
    {
        match self {
            ConfyError::BadTomlData(_) => String::from_str("Bad TOML data"),
            ConfyError::DirectoryCreationFailed(_) => String::from_str("Failed to create directory"),
            ConfyError::GeneralLoadError(_) => String::from_str("Failed to load configuration file"),
            ConfyError::BadConfigDirectory(reason) => String::from_str(
                "Bad configuration directory: ",
            ).concat(reason.as_str()),
            ConfyError::SerializeTomlError(_) => String::from_str(
                "Failed to serialize configuration data into TOML",
            ),
            ConfyError::WriteConfigurationFileError(_) => String::from_str(
                "Failed to write configuration file",
            ),
            ConfyError::ReadConfigurationFileError(_) => String::from_str(
                "Failed to read configuration file",
            ),
            ConfyError::OpenConfigurationFileError(_) => String::from_str(
                "Failed to open configuration file",
            ),
        }
    }
}

} // verus!
