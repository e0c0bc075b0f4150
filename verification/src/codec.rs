//! The text format of a configuration file: TOML.

use vstd::prelude::*;
use crate::error::ConfyError;

verus! {

/// Extension of every configuration file this build reads and writes.
pub const EXTENSION: &'static str = "toml";

/// Calls `toml::to_string_pretty`. What it returns is decided by the value's
/// own `Serialize` implementation, so nothing is claimed of it.
#[verifier::external_body]
fn to_toml<T: serde::Serialize>(value: &T) -> (encoded: Result<String, toml::ser::Error>) {
    toml::to_string_pretty(value)
}

/// Calls `toml::from_str`. What it returns is decided by the type's own
/// `Deserialize` implementation, so nothing is claimed of it.
#[verifier::external_body]
fn from_toml<T: serde::de::DeserializeOwned>(text: &str) -> (decoded: Result<T, toml::de::Error>) {
    toml::from_str(text)
}

/// What `encode` answers for each result of the TOML serializer.
pub open spec fn encoded_as(raw: Result<String, toml::ser::Error>) -> Result<String, ConfyError> {
    match raw {
        Ok(text) => Ok(text),
        Err(cause) => Err(ConfyError::SerializeTomlError(cause)),
    }
}

/// Classifies the serializer's answer: the text as it is, or a
/// serialization failure that keeps the cause.
pub fn encoded(raw: Result<String, toml::ser::Error>) -> (text: Result<String, ConfyError>)
    ensures
        text == encoded_as(raw),
{
    match raw {
        Ok(text) => Ok(text),
        Err(cause) => Err(ConfyError::SerializeTomlError(cause)),
    }
}

/// Encodes a value as pretty TOML text. The only failure is a serialization
/// failure.
pub fn encode<T: serde::Serialize>(value: &T) -> (text: Result<String, ConfyError>)
    ensures
        text is Err ==> text->Err_0 is SerializeTomlError,
{
    encoded(to_toml(value))
}

/// What `decode` answers for each result of the TOML parser.
pub open spec fn decoded_as<T>(raw: Result<T, toml::de::Error>) -> Result<T, ConfyError> {
    match raw {
        Ok(value) => Ok(value),
        Err(cause) => Err(ConfyError::BadTomlData(cause)),
    }
}

/// Classifies the parser's answer: the value as it is, or a bad-data
/// failure that keeps the cause.
pub fn decoded<T>(raw: Result<T, toml::de::Error>) -> (value: Result<T, ConfyError>)
    ensures
        value == decoded_as(raw),
{
    match raw {
        Ok(value) => Ok(value),
        Err(cause) => Err(ConfyError::BadTomlData(cause)),
    }
}

/// Decodes a whole TOML document into a value. The only failure is a
/// bad-data failure.
pub fn decode<T: serde::de::DeserializeOwned>(text: &str) -> (value: Result<T, ConfyError>)
    ensures
        value is Err ==> value->Err_0 is BadTomlData,
{
    decoded(from_toml(text))
}

} // verus!
