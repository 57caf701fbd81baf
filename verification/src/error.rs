//! The error type shared by the library's fallible operations.

use vstd::prelude::*;
use crate::text::{owned, push_str};

verus! {

#[verifier::external_type_specification]
#[verifier::external_body]
pub struct ExIoError(std::io::Error);

/// Custom error types for the Copy DVD application
#[derive(Debug)]
pub enum AppError {
    Io(std::io::Error),
    DvdNotFound(String),
    HandBrakeNotFound,
    DvdParseFailed(String),
    CommandFailed(String),
    MountFailed(String),
    NoTitlesFound,
    ConfigError(String),
    OutputExists(String),
    UploadFailed(String),
    GuiError(String),
    UserError(String),
    Unknown(String),
    HandbrakeError(String),
    DvdError(String),
}

impl From<std::io::Error> for AppError {
    fn from(e: std::io::Error) -> (r: Self) {
        AppError::Io(e)
    }
}

impl vstd::std_specs::convert::FromSpecImpl<std::io::Error> for AppError {
    open spec fn obeys_from_spec() -> bool {
        true
    }

    open spec fn from_spec(e: std::io::Error) -> AppError {
        AppError::Io(e)
    }
}

/// The message shown for an error, for every variant that carries no
/// operating-system error.
pub open spec fn error_message(e: AppError) -> Seq<char> {
    match e {
        AppError::Io(_) => "I/O error: "@,
        AppError::DvdNotFound(p) => "DVD not found at path: "@ + p@,
        AppError::HandBrakeNotFound => "HandBrake CLI not found. Please install HandBrake."@,
        AppError::DvdParseFailed(s) => "Failed to parse DVD structure: "@ + s@,
        AppError::CommandFailed(s) => "Failed to execute command: "@ + s@,
        AppError::MountFailed(s) => "Mount failed: "@ + s@,
        AppError::NoTitlesFound => "No valid titles found on DVD"@,
        AppError::ConfigError(s) => "Configuration error: "@ + s@,
        AppError::OutputExists(p) => "Output file already exists: "@ + p@,
        AppError::UploadFailed(s) => "Upload failed: "@ + s@,
        AppError::GuiError(s) => "GUI error: "@ + s@,
        AppError::UserError(s) => "User error: "@ + s@,
        AppError::Unknown(s) => "Unknown error: "@ + s@,
        AppError::HandbrakeError(s) => "HandBrake error: "@ + s@,
        AppError::DvdError(s) => "DVD operation error: "@ + s@,
    }
}

/// The text the operating system gives for an I/O error (its `Display`),
/// which varies between systems, so nothing is stated of it.
#[verifier::external_body]
fn io_error_text(e: &std::io::Error) -> (r: String) {
    format!("{}", e)
}

impl AppError {
    /// The message shown for the error (what its `Display` writes); for an I/O
    /// error the system's text follows the prefix.
    pub fn message(&self) -> (r: String)
        ensures
            self is Io ==> crate::text::starts_with(r@, error_message(*self)),
            !(self is Io) ==> r@ == error_message(*self),
    {
        let (prefix, detail): (&str, Option<&String>) = match self {
            AppError::Io(_) => ("I/O error: ", None),
            AppError::DvdNotFound(p) => ("DVD not found at path: ", Some(p)),
            AppError::HandBrakeNotFound => ("HandBrake CLI not found. Please install HandBrake.", None),
            AppError::DvdParseFailed(s) => ("Failed to parse DVD structure: ", Some(s)),
            AppError::CommandFailed(s) => ("Failed to execute command: ", Some(s)),
            AppError::MountFailed(s) => ("Mount failed: ", Some(s)),
            AppError::NoTitlesFound => ("No valid titles found on DVD", None),
            AppError::ConfigError(s) => ("Configuration error: ", Some(s)),
            AppError::OutputExists(p) => ("Output file already exists: ", Some(p)),
            AppError::UploadFailed(s) => ("Upload failed: ", Some(s)),
            AppError::GuiError(s) => ("GUI error: ", Some(s)),
            AppError::UserError(s) => ("User error: ", Some(s)),
            AppError::Unknown(s) => ("Unknown error: ", Some(s)),
            AppError::HandbrakeError(s) => ("HandBrake error: ", Some(s)),
            AppError::DvdError(s) => ("DVD operation error: ", Some(s)),
        };
        let mut out = owned(prefix);
        match detail {
            Some(d) => push_str(&mut out, d.as_str()),
            None => {},
        }
        match self {
            AppError::Io(e) => {
                let t = io_error_text(e);
                push_str(&mut out, t.as_str());
                assert(crate::text::starts_with(out@, error_message(*self))) by {
                    assert(out@.take(error_message(*self).len() as int) =~= error_message(*self));
                }
            },
            _ => {},
        }
        out
    }
}

} // verus!
