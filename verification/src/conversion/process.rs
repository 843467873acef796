//! Pausing, resuming and ending a process: which signals are sent on Unix,
//! which entry points are used on Windows, and what their results mean.

use vstd::prelude::*;
use vstd::string::StringExecFns;
use crate::conversion::error::{ConversionError, ErrorKind};
use crate::text::{integer_text, push_integer};

verus! {

/// What can be asked of a running process.
#[derive(Clone, Copy, Debug, PartialEq, Eq, Structural)]
pub enum ControlRequest {
    Suspend,
    Resume,
    Terminate,
}

/// The signals that control a process on Unix.
#[derive(Clone, Copy, Debug, PartialEq, Eq, Structural)]
pub enum Signal {
    Stop,
    Continue,
    Kill,
}

/// One signal to send, and whether its delivery has to succeed.
#[derive(Clone, Copy, Debug, PartialEq, Eq, Structural)]
pub struct SignalStep {
    pub signal: Signal,
    pub required: bool,
}

/// The signals that carry out a request on Unix, in order: a stop signal to
/// suspend, a continue signal to resume; to terminate, a continue signal
/// first, which frees a suspended process and need not arrive, and then a
/// kill signal.
pub open spec fn signal_plan(request: ControlRequest) -> Seq<SignalStep> {
    match request {
        ControlRequest::Suspend => seq![SignalStep { signal: Signal::Stop, required: true }],
        ControlRequest::Resume => seq![SignalStep { signal: Signal::Continue, required: true }],
        ControlRequest::Terminate => seq![
            SignalStep { signal: Signal::Continue, required: false },
            SignalStep { signal: Signal::Kill, required: true },
        ],
    }
}

/// The signals that carry out `request` on Unix.
pub fn unix_signal_plan(request: ControlRequest) -> (plan: Vec<SignalStep>)
    ensures
        plan@ == signal_plan(request),
{
    let mut plan: Vec<SignalStep> = Vec::new();
    match request {
        ControlRequest::Suspend => {
            plan.push(SignalStep { signal: Signal::Stop, required: true });
        },
        ControlRequest::Resume => {
            plan.push(SignalStep { signal: Signal::Continue, required: true });
        },
        ControlRequest::Terminate => {
            plan.push(SignalStep { signal: Signal::Continue, required: false });
            plan.push(SignalStep { signal: Signal::Kill, required: true });
        },
    }
    assert(plan@ =~= signal_plan(request));
    plan
}

/// The name of a signal.
pub open spec fn signal_name(signal: Signal) -> Seq<char> {
    match signal {
        Signal::Stop => "SIGSTOP"@,
        Signal::Continue => "SIGCONT"@,
        Signal::Kill => "SIGKILL"@,
    }
}

/// What the delivery of a signal comes to: a status other than zero is a
/// shell error that names the signal, unless the signal need not arrive.
pub open spec fn delivery(step: SignalStep, status: i32) -> Option<(ErrorKind, Seq<char>)> {
    if status != 0 && step.required {
        Some((ErrorKind::Shell, "Failed to send "@ + signal_name(step.signal)))
    } else {
        None
    }
}

/// Judges the delivery of one signal by the status that the system returned.
pub fn signal_outcome(step: SignalStep, status: i32) -> (outcome: Result<(), ConversionError>)
    ensures
        match delivery(step, status) {
            Some(e) => (outcome matches Err(err) && err@ == e),
            None => outcome is Ok,
        },
{
    if status != 0 && step.required {
        let text = match step.signal {
            Signal::Stop => String::from_str("Failed to send ").concat("SIGSTOP"),
            Signal::Continue => String::from_str("Failed to send ").concat("SIGCONT"),
            Signal::Kill => String::from_str("Failed to send ").concat("SIGKILL"),
        };
        Err(ConversionError::Shell(text))
    } else {
        Ok(())
    }
}

/// The entry point of the system's process library that suspends, or
/// resumes, all threads of a process on Windows.
pub fn nt_entry_point(suspend: bool) -> (name: &'static str)
    ensures
        name@ == if suspend {
            "NtSuspendProcess"@
        } else {
            "NtResumeProcess"@
        },
{
    if suspend {
        "NtSuspendProcess"
    } else {
        "NtResumeProcess"
    }
}

/// The points at which suspending or resuming a process on Windows can fail.
pub enum WindowsFailure {
    /// The process could not be opened; with the system's words.
    OpenProcess(String),
    /// The process could not be opened for termination; with the system's words.
    OpenForTermination(String),
    /// The process library could not be found; with the system's words.
    LibraryHandle(String),
    /// The library has no such entry point.
    EntryPointMissing,
    /// The entry point returned this status, which is not zero.
    Status(i32),
}

/// The detail of the shell error that a failure on Windows becomes.
pub open spec fn windows_failure_text(failure: WindowsFailure) -> Seq<char> {
    match failure {
        WindowsFailure::OpenProcess(e) => "Failed to open process: "@ + e@,
        WindowsFailure::OpenForTermination(e) => "Failed to open process for termination: "@ + e@,
        WindowsFailure::LibraryHandle(e) => "Failed to get ntdll handle: "@ + e@,
        WindowsFailure::EntryPointMissing => "Could not find NtSuspendProcess/NtResumeProcess in ntdll"@,
        WindowsFailure::Status(status) => "NtSuspendProcess/NtResumeProcess failed with status: "@
            + integer_text(status as int),
    }
}

/// The shell error that a failure on Windows becomes.
pub fn windows_failure(failure: WindowsFailure) -> (error: ConversionError)
    ensures
        error@ == (ErrorKind::Shell, windows_failure_text(failure)),
{
    match failure {
        WindowsFailure::OpenProcess(e) => ConversionError::Shell(
            String::from_str("Failed to open process: ").concat(e.as_str()),
        ),
        WindowsFailure::OpenForTermination(e) => ConversionError::Shell(
            String::from_str("Failed to open process for termination: ").concat(e.as_str()),
        ),
        WindowsFailure::LibraryHandle(e) => ConversionError::Shell(
            String::from_str("Failed to get ntdll handle: ").concat(e.as_str()),
        ),
        WindowsFailure::EntryPointMissing => ConversionError::Shell(
            String::from_str("Could not find NtSuspendProcess/NtResumeProcess in ntdll"),
        ),
        WindowsFailure::Status(status) => {
            let mut text = String::from_str("NtSuspendProcess/NtResumeProcess failed with status: ");
            push_integer(&mut text, status as i64);
            ConversionError::Shell(text)
        },
    }
}

/// Judges the status that the entry point returned on Windows: anything but
/// zero is a shell error that names the status.
pub fn nt_status_outcome(status: i32) -> (outcome: Result<(), ConversionError>)
    ensures
        status == 0 ==> outcome is Ok,
        status != 0 ==> (outcome matches Err(e) && e@ == (
            ErrorKind::Shell,
            windows_failure_text(WindowsFailure::Status(status)),
        )),
{
    if status != 0 {
        Err(windows_failure(WindowsFailure::Status(status)))
    } else {
        Ok(())
    }
}

} // verus!
