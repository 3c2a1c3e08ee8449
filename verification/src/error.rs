//! The error type that the library and the program around it share.

use vstd::prelude::*;

verus! {

/// I/O errors of the standard library, carried through unopened.
#[verifier::external_type_specification]
#[verifier::external_body]
pub struct ExIoError(std::io::Error);

/// Transport errors of `reqwest`, carried through unopened.
#[verifier::external_type_specification]
#[verifier::external_body]
pub struct ExTransportError(reqwest::Error);

/// Syntax errors of `serde_json`, carried through unopened.
#[verifier::external_type_specification]
#[verifier::external_body]
pub struct ExJsonError(serde_json::Error);

/// Everything that can end a run early.
#[derive(Debug)]
pub enum MyError {
    /// Creating, opening, reading or writing a file failed.
    Io(std::io::Error),
    /// The exchange with the endpoint failed below the level of its payload.
    HttpRequest(reqwest::Error),
    /// A text was not JSON, or a document could not be written as JSON.
    JsonError(serde_json::Error),
    /// A configuration was JSON but did not hold the two required strings.
    ConfigMalformed,
    /// Any other failure, with its message.
    Other(String),
}

impl MyError {
    /// The one-line description of the error.
    pub fn describe(&self) -> (result: String)
        ensures
            result@ == match *self {
                MyError::Io(_) => "IO error"@,
                MyError::HttpRequest(_) => "HTTP request error"@,
                MyError::JsonError(_) => "JSON error"@,
                MyError::ConfigMalformed => "Malformed configuration"@,
                MyError::Other(text) => "Other error: "@ + text@,
            },
    {
        match self {
            MyError::Io(_) => String::from_str("IO error"),
            MyError::HttpRequest(_) => String::from_str("HTTP request error"),
            MyError::JsonError(_) => String::from_str("JSON error"),
            MyError::ConfigMalformed => String::from_str("Malformed configuration"),
            MyError::Other(text) => String::from_str("Other error: ").concat(text.as_str()),
        }
    }
}

} // verus!
