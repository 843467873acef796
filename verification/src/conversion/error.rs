//! The errors of the conversion subsystem.

use vstd::prelude::*;
use vstd::string::StringExecFns;

verus! {

/// Why an operation of the conversion subsystem failed.
#[derive(Clone, Debug)]
pub enum ConversionError {
    /// A tool could not be launched, or a process could not be signalled.
    Shell(String),
    /// Reading or writing a file failed.
    Io(String),
    /// The prober's report could not be read.
    Json(String),
    /// A message could not be handed to the manager.
    Channel(String),
    /// The prober failed.
    Probe(String),
    /// A stage of a task ended in failure.
    Worker(String),
    /// A request was rejected before it reached the queue.
    InvalidInput(String),
    /// No process is known for the task that was named.
    TaskNotFound(String),
}

/// The kinds of [`ConversionError`].
#[derive(Clone, Copy, Debug, PartialEq, Eq, Structural)]
pub enum ErrorKind {
    Shell,
    Io,
    Json,
    Channel,
    Probe,
    Worker,
    InvalidInput,
    TaskNotFound,
}

impl View for ConversionError {
    type V = (ErrorKind, Seq<char>);

    /// The kind of the error and the detail that it carries.
    open spec fn view(&self) -> (ErrorKind, Seq<char>) {
        (self.kind_view(), self.detail())
    }
}

impl ConversionError {
    /// The kind of the error.
    pub open spec fn kind_view(&self) -> ErrorKind {
        match self {
            ConversionError::Shell(_) => ErrorKind::Shell,
            ConversionError::Io(_) => ErrorKind::Io,
            ConversionError::Json(_) => ErrorKind::Json,
            ConversionError::Channel(_) => ErrorKind::Channel,
            ConversionError::Probe(_) => ErrorKind::Probe,
            ConversionError::Worker(_) => ErrorKind::Worker,
            ConversionError::InvalidInput(_) => ErrorKind::InvalidInput,
            ConversionError::TaskNotFound(_) => ErrorKind::TaskNotFound,
        }
    }

    /// The kind of the error.
    pub fn kind(&self) -> (kind: ErrorKind)
        ensures
            kind == self.kind_view(),
    {
        match self {
            ConversionError::Shell(_) => ErrorKind::Shell,
            ConversionError::Io(_) => ErrorKind::Io,
            ConversionError::Json(_) => ErrorKind::Json,
            ConversionError::Channel(_) => ErrorKind::Channel,
            ConversionError::Probe(_) => ErrorKind::Probe,
            ConversionError::Worker(_) => ErrorKind::Worker,
            ConversionError::InvalidInput(_) => ErrorKind::InvalidInput,
            ConversionError::TaskNotFound(_) => ErrorKind::TaskNotFound,
        }
    }

    /// The words in front of the detail in [`ConversionError::message`].
    pub open spec fn prefix(&self) -> Seq<char> {
        match self {
            ConversionError::Shell(_) => "Shell command failed: "@,
            ConversionError::Io(_) => "IO error: "@,
            ConversionError::Json(_) => "JSON parsing failed: "@,
            ConversionError::Channel(_) => "Internal channel error: "@,
            ConversionError::Probe(_) => "Probe failed: "@,
            ConversionError::Worker(_) => "Worker process error: "@,
            ConversionError::InvalidInput(_) => "Invalid input: "@,
            ConversionError::TaskNotFound(_) => "Task not found: "@,
        }
    }

    /// The detail that the error carries.
    pub open spec fn detail(&self) -> Seq<char> {
        match self {
            ConversionError::Shell(m) => m@,
            ConversionError::Io(m) => m@,
            ConversionError::Json(m) => m@,
            ConversionError::Channel(m) => m@,
            ConversionError::Probe(m) => m@,
            ConversionError::Worker(m) => m@,
            ConversionError::InvalidInput(m) => m@,
            ConversionError::TaskNotFound(m) => m@,
        }
    }

    /// The text shown to the user: a prefix that names the kind, then the detail.
    pub open spec fn message_view(&self) -> Seq<char> {
        self.prefix() + self.detail()
    }

    /// The text shown to the user.
    pub fn message(&self) -> (text: String)
        ensures
            text@ == self.message_view(),
    {
        match self {
            ConversionError::Shell(m) => String::from_str("Shell command failed: ").concat(m.as_str()),
            ConversionError::Io(m) => String::from_str("IO error: ").concat(m.as_str()),
            ConversionError::Json(m) => String::from_str("JSON parsing failed: ").concat(m.as_str()),
            ConversionError::Channel(m) => String::from_str("Internal channel error: ").concat(m.as_str()),
            ConversionError::Probe(m) => String::from_str("Probe failed: ").concat(m.as_str()),
            ConversionError::Worker(m) => String::from_str("Worker process error: ").concat(m.as_str()),
            ConversionError::InvalidInput(m) => String::from_str("Invalid input: ").concat(m.as_str()),
            ConversionError::TaskNotFound(m) => String::from_str("Task not found: ").concat(m.as_str()),
        }
    }
}

} // verus!
