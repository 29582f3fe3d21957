//! The unified clipboard injector's snapshots, modes and backends, and the
//! decisions around its paste.

use crate::detection::DisplayProtocol;
use crate::types::{InjectionConfig, InjectionError, InjectionResult};
use crate::clipboard::is_valid_after_spec;
use crate::time::{duration_lt, duration_nanos, elapsed_duration, instant_now};
use std::time::{Duration, Instant};
use vstd::prelude::*;

verus! {

/// A clipboard snapshot with its MIME type.
#[derive(Debug, Clone)]
pub struct ClipboardBackup {
    /// Content of the clipboard.
    pub content: Vec<u8>,
    /// MIME type of the content.
    pub mime_type: String,
    /// When the snapshot was taken.
    pub timestamp: Instant,
}

impl ClipboardBackup {
    /// A snapshot of `content` taken now.
    pub fn new(content: Vec<u8>, mime_type: String) -> (b: Self)
        ensures
            b.content@ == content@,
            b.mime_type@ == mime_type@,
    {
        ClipboardBackup { content, mime_type, timestamp: instant_now() }
    }

    /// Whether the snapshot is younger than `max_age` (read from the clock):
    /// the time elapsed since it was taken is shorter than `max_age`, so a
    /// zero `max_age` never holds.
    pub fn is_valid(&self, max_age: Duration) -> (r: bool)
        ensures
            exists|elapsed: Duration| r == is_valid_after_spec(elapsed, max_age),
            duration_nanos(max_age) == 0 ==> !r,
    {
        let elapsed = elapsed_duration(&self.timestamp);
        self.is_valid_after(elapsed, max_age)
    }

    /// Whether a snapshot taken `elapsed` ago is younger than `max_age`.
    pub fn is_valid_after(&self, elapsed: Duration, max_age: Duration) -> (r: bool)
        ensures
            r == is_valid_after_spec(elapsed, max_age),
    {
        duration_lt(&elapsed, &max_age)
    }
}

/// How strictly the clipboard injector requires its paste to succeed.
#[derive(Debug, Clone, Copy, PartialEq, Eq, Structural)]
pub enum ClipboardInjectionMode {
    /// Fail when the paste action fails.
    Strict,
    /// Report success once the clipboard is seeded, even if the paste failed.
    BestEffort,
}

/// Clipboard backend types.
#[derive(Debug, Clone, Copy, PartialEq, Eq, Structural)]
pub enum ClipboardBackend {
    Wayland,
    X11,
    Unknown,
}

/// The clipboard backend that serves a display protocol.
pub open spec fn backend_for_protocol(p: DisplayProtocol) -> ClipboardBackend {
    match p {
        DisplayProtocol::Wayland => ClipboardBackend::Wayland,
        DisplayProtocol::X11 => ClipboardBackend::X11,
        DisplayProtocol::Unknown => ClipboardBackend::Unknown,
    }
}

/// Maps the detected display protocol to the clipboard backend.
pub fn clipboard_backend_for(p: DisplayProtocol) -> (b: ClipboardBackend)
    ensures
        b == backend_for_protocol(p),
{
    match p {
        DisplayProtocol::Wayland => ClipboardBackend::Wayland,
        DisplayProtocol::X11 => ClipboardBackend::X11,
        DisplayProtocol::Unknown => ClipboardBackend::Unknown,
    }
}

/// The result of a clipboard injection after its paste: a failed paste
/// fails the injection in strict mode only.
pub fn paste_outcome(mode: ClipboardInjectionMode, paste: InjectionResult<&'static str>) -> (r: InjectionResult<()>)
    ensures
        match paste {
            Err(e) => if mode == ClipboardInjectionMode::Strict {
                r == Err::<(), InjectionError>(e)
            } else {
                r == Ok::<(), InjectionError>(())
            },
            Ok(_) => r == Ok::<(), InjectionError>(()),
        },
{
    match paste {
        Err(e) => match mode {
            ClipboardInjectionMode::Strict => Err(e),
            ClipboardInjectionMode::BestEffort => Ok(()),
        },
        Ok(_) => Ok(()),
    }
}

/// How long the clipboard injector waits before restoring the clipboard:
/// the configured delay, 500 ms when unset.
pub fn restore_delay_ms(config: &InjectionConfig) -> (ms: u64)
    ensures
        ms == match config.clipboard_restore_delay_ms {
            Some(d) => d,
            None => 500,
        },
{
    match config.clipboard_restore_delay_ms {
        Some(d) => d,
        None => 500,
    }
}

} // verus!
