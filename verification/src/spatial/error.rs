//! The errors of the spatial subsystem.

use vstd::prelude::*;
use vstd::string::StringExecFns;

verus! {

/// Why an operation of the spatial subsystem failed.
#[derive(Clone, Debug)]
pub enum SpatialError {
    /// A tool could not be launched, or a process could not be signalled.
    Shell(String),
    /// Reading or writing a file failed.
    Io(String),
    /// A message could not be handed to the manager.
    Channel(String),
    /// The tool ended in failure.
    Worker(String),
    /// A request was rejected before it reached the queue.
    InvalidInput(String),
}

/// The kinds of [`SpatialError`].
#[derive(Clone, Copy, Debug, PartialEq, Eq, Structural)]
pub enum SpatialErrorKind {
    Shell,
    Io,
    Channel,
    Worker,
    InvalidInput,
}

impl View for SpatialError {
    type V = (SpatialErrorKind, Seq<char>);

    /// The kind of the error and the detail that it carries.
    open spec fn view(&self) -> (SpatialErrorKind, Seq<char>) {
        match self {
            SpatialError::Shell(m) => (SpatialErrorKind::Shell, m@),
            SpatialError::Io(m) => (SpatialErrorKind::Io, m@),
            SpatialError::Channel(m) => (SpatialErrorKind::Channel, m@),
            SpatialError::Worker(m) => (SpatialErrorKind::Worker, m@),
            SpatialError::InvalidInput(m) => (SpatialErrorKind::InvalidInput, m@),
        }
    }
}

/// The words in front of the detail of an error of this kind.
pub open spec fn kind_prefix(kind: SpatialErrorKind) -> Seq<char> {
    match kind {
        SpatialErrorKind::Shell => "Shell command failed: "@,
        SpatialErrorKind::Io => "IO error: "@,
        SpatialErrorKind::Channel => "Internal channel error: "@,
        SpatialErrorKind::Worker => "Worker process error: "@,
        SpatialErrorKind::InvalidInput => "Invalid input: "@,
    }
}

impl SpatialError {
    /// The text shown to the user: a prefix that names the kind, then the
    /// detail.
    pub open spec fn message_view(&self) -> Seq<char> {
        kind_prefix(self@.0) + self@.1
    }

    /// The text shown to the user.
    pub fn message(&self) -> (text: String)
        ensures
            text@ == self.message_view(),
    {
        match self {
            SpatialError::Shell(m) => String::from_str("Shell command failed: ").concat(m.as_str()),
            SpatialError::Io(m) => String::from_str("IO error: ").concat(m.as_str()),
            SpatialError::Channel(m) => String::from_str("Internal channel error: ").concat(
                m.as_str(),
            ),
            SpatialError::Worker(m) => String::from_str("Worker process error: ").concat(m.as_str()),
            SpatialError::InvalidInput(m) => String::from_str("Invalid input: ").concat(m.as_str()),
        }
    }
}

} // verus!
