//! Structured errors of the injection pipeline, with the backend and phase
//! they concern.

use crate::probe::BackendId;
use vstd::prelude::*;

verus! {

#[verifier::external_type_specification]
#[verifier::external_body]
pub struct ExIoError(std::io::Error);

/// An error of the injection pipeline.
#[derive(Debug)]
pub enum InjectionError {
    /// A backend is unavailable in this environment.
    Unavailable { backend: BackendId, cause: UnavailableCause },
    /// A phase of a backend ran out of time.
    Timeout { backend: BackendId, phase: &'static str, elapsed_ms: u32 },
    /// A precondition of the injection was not met.
    PreconditionNotMet { reason: &'static str },
    /// A transient error that a retry may resolve.
    Transient { reason: &'static str, retryable: bool },
    /// The clipboard could not be restored to its earlier content.
    ClipboardRestoreMismatch { details: String },
    /// An I/O error of a backend.
    Io { backend: BackendId, msg: String },
    /// Anything else.
    Other(String),
}

/// Why a backend is unavailable.
#[derive(Debug)]
pub enum UnavailableCause {
    /// The environment lacks required components.
    Environment { causes: Vec<String> },
    /// D-Bus is not available.
    Dbus,
    /// The AT-SPI registry is not running or not responsive.
    AtspiRegistry,
    /// A required clipboard tool is missing or not responding.
    ClipboardTool,
    /// Every available backend was tried and failed.
    Exhausted,
}

/// Errors of clipboard operations.
#[derive(Debug)]
pub enum ClipboardError {
    /// The clipboard tool could not be launched.
    Launch(String),
    /// The clipboard operation timed out.
    Timeout,
    /// The clipboard content is not valid UTF-8.
    InvalidUtf8,
    /// An I/O error while talking to the tool.
    Io(std::io::Error),
}

/// The name of an error's variant, under which failures are counted.
pub open spec fn error_kind_spec(e: InjectionError) -> Seq<char> {
    match e {
        InjectionError::Unavailable { .. } => "Unavailable"@,
        InjectionError::Timeout { .. } => "Timeout"@,
        InjectionError::PreconditionNotMet { .. } => "PreconditionNotMet"@,
        InjectionError::Transient { .. } => "Transient"@,
        InjectionError::ClipboardRestoreMismatch { .. } => "ClipboardRestoreMismatch"@,
        InjectionError::Io { .. } => "Io"@,
        InjectionError::Other(_) => "Other"@,
    }
}

impl InjectionError {
    /// The name of this error's variant.
    pub fn kind(&self) -> (k: &'static str)
        ensures
            k@ == error_kind_spec(*self),
    {
        match self {
            InjectionError::Unavailable { .. } => "Unavailable",
            InjectionError::Timeout { .. } => "Timeout",
            InjectionError::PreconditionNotMet { .. } => "PreconditionNotMet",
            InjectionError::Transient { .. } => "Transient",
            InjectionError::ClipboardRestoreMismatch { .. } => "ClipboardRestoreMismatch",
            InjectionError::Io { .. } => "Io",
            InjectionError::Other(_) => "Other",
        }
    }
}

} // verus!
