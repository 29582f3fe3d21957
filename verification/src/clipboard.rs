//! The seed-and-restore clipboard injector's snapshots, context and
//! backend detection.

use crate::env::EnvironmentProbe;
use crate::time::{duration_lt, duration_nanos, elapsed_duration, instant_now};
use std::time::{Duration, Instant};
use vstd::prelude::*;

verus! {

/// A clipboard snapshot with its MIME type.
#[derive(Debug, Clone)]
pub struct ClipboardBackup {
    /// Content of the clipboard.
    pub content: Vec<u8>,
    /// MIME type of the content.
    pub mime_type: String,
    /// When the snapshot was taken.
    pub timestamp: Instant,
}

/// A snapshot taken `elapsed` ago is younger than `max_age`.
pub open spec fn is_valid_after_spec(elapsed: Duration, max_age: Duration) -> bool {
    duration_nanos(elapsed) < duration_nanos(max_age)
}

/// A snapshot that is valid under some age limit at some elapsed time stays
/// valid under any longer limit and at any earlier time; under a zero limit it
/// is never valid.
pub proof fn lemma_snapshot_validity_monotone(
    elapsed: Duration,
    earlier: Duration,
    max_age: Duration,
    longer: Duration,
)
    requires
        duration_nanos(earlier) <= duration_nanos(elapsed),
        duration_nanos(max_age) <= duration_nanos(longer),
    ensures
        is_valid_after_spec(elapsed, max_age) ==> is_valid_after_spec(earlier, longer),
        duration_nanos(max_age) == 0 ==> !is_valid_after_spec(elapsed, max_age),
{
}

impl ClipboardBackup {
    /// A snapshot of `content` taken now.
    pub fn new(content: Vec<u8>, mime_type: String) -> (b: Self)
        ensures
            b.content@ == content@,
            b.mime_type@ == mime_type@,
    {
        ClipboardBackup { content, mime_type, timestamp: instant_now() }
    }

    /// Whether the snapshot is younger than `max_age` (read from the clock):
    /// the time elapsed since it was taken is shorter than `max_age`, so a
    /// zero `max_age` never holds.
    pub fn is_valid(&self, max_age: Duration) -> (r: bool)
        ensures
            exists|elapsed: Duration| r == is_valid_after_spec(elapsed, max_age),
            duration_nanos(max_age) == 0 ==> !r,
    {
        let elapsed = elapsed_duration(&self.timestamp);
        self.is_valid_after(elapsed, max_age)
    }

    /// Whether a snapshot taken `elapsed` ago is younger than `max_age`.
    pub fn is_valid_after(&self, elapsed: Duration, max_age: Duration) -> (r: bool)
        ensures
            r == is_valid_after_spec(elapsed, max_age),
    {
        duration_lt(&elapsed, &max_age)
    }
}

/// Context of one clipboard injection.
#[derive(Debug, Clone)]
pub struct Context {
    /// A clipboard backup taken beforehand.
    pub clipboard_backup: Option<ClipboardBackup>,
    /// Target application identifier.
    pub target_app: Option<String>,
    /// Window identifier.
    pub window_id: Option<String>,
}

impl Default for Context {
    fn default() -> (c: Self)
        ensures
            c.clipboard_backup is None,
            c.target_app is None,
            c.window_id is None,
    {
        Context { clipboard_backup: None, target_app: None, window_id: None }
    }
}

/// Clipboard backend types.
#[derive(Debug, Clone, Copy, PartialEq, Eq, Structural)]
pub enum ClipboardBackend {
    /// Wayland, through wl-clipboard.
    Wayland,
    /// X11, through xclip.
    X11,
    /// Unknown or unavailable.
    Unknown,
}

/// The backend of the seed-and-restore injector: Wayland when
/// `WAYLAND_DISPLAY` is set, else X11 when `DISPLAY` is set.
pub open spec fn seed_backend_of(env: EnvironmentProbe) -> ClipboardBackend {
    if env.wayland_display {
        ClipboardBackend::Wayland
    } else if env.display {
        ClipboardBackend::X11
    } else {
        ClipboardBackend::Unknown
    }
}

/// Detects the clipboard backend of `env`.
pub fn detect_clipboard_backend(env: &EnvironmentProbe) -> (b: ClipboardBackend)
    ensures
        b == seed_backend_of(*env),
{
    if env.wayland_display {
        return ClipboardBackend::Wayland;
    }
    if env.display {
        return ClipboardBackend::X11;
    }
    ClipboardBackend::Unknown
}

} // verus!
