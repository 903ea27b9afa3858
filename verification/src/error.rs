//! What can go wrong between asking for an operation and reading its answer.

use vstd::prelude::*;

use serde_json::Error as JsonError;

use crate::exit::ExitStatus;

verus! {

/// `serde_json::Error`, carried from the parser or the serialiser to the caller unread.
#[verifier::external_type_specification]
#[verifier::external_body]
pub struct ExJsonError(JsonError);

/// `std::io::Error`, carried from the system call that failed to the caller unread.
#[verifier::external_type_specification]
#[verifier::external_body]
pub struct ExIoError(std::io::Error);

/// Why an operation gave no answer.
#[derive(Debug)]
pub enum Error {
    /// A path could not be made absolute.
    InvalidPath(std::io::Error),
    /// A value could not be turned into JSON, or JSON into a value.
    JsonDeserializationFailed(JsonError),
    /// The event that was asked for holds no statistics.
    MissingContainerStats,
    /// The child process could not be started.
    ProcessSpawnFailed(std::io::Error),
    /// The child process could not be waited for.
    InvalidCommand(std::io::Error),
    /// The child process ended without success.
    CommandFailed { status: ExitStatus, stdout: String, stderr: String },
    /// The caller's streams could not be attached to the child process.
    UnavailableIO(std::io::Error),
    /// No runc binary was found.
    NotFound,
    /// The file that describes a process or its resources could not be written.
    SpecFileCreationFailed(std::io::Error),
    /// The named operation is not offered.
    Unimplemented(String),
}

/// An [`Error`] with its texts as character sequences.
pub enum ErrorView {
    InvalidPath(std::io::Error),
    JsonDeserializationFailed(JsonError),
    MissingContainerStats,
    ProcessSpawnFailed(std::io::Error),
    InvalidCommand(std::io::Error),
    CommandFailed { status: ExitStatus, stdout: Seq<char>, stderr: Seq<char> },
    UnavailableIO(std::io::Error),
    NotFound,
    SpecFileCreationFailed(std::io::Error),
    Unimplemented(Seq<char>),
}

impl View for Error {
    type V = ErrorView;

    open spec fn view(&self) -> ErrorView {
        match *self {
            Error::InvalidPath(e) => ErrorView::InvalidPath(e),
            Error::JsonDeserializationFailed(e) => ErrorView::JsonDeserializationFailed(e),
            Error::MissingContainerStats => ErrorView::MissingContainerStats,
            Error::ProcessSpawnFailed(e) => ErrorView::ProcessSpawnFailed(e),
            Error::InvalidCommand(e) => ErrorView::InvalidCommand(e),
            Error::CommandFailed { status, stdout, stderr } => ErrorView::CommandFailed {
                status,
                stdout: stdout@,
                stderr: stderr@,
            },
            Error::UnavailableIO(e) => ErrorView::UnavailableIO(e),
            Error::NotFound => ErrorView::NotFound,
            Error::SpecFileCreationFailed(e) => ErrorView::SpecFileCreationFailed(e),
            Error::Unimplemented(name) => ErrorView::Unimplemented(name@),
        }
    }
}

} // verus!
