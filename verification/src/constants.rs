//! Timeouts and budgets of the injection system, in one place.

use crate::time::{duration_from_millis, millis_duration};
use std::time::Duration;
use vstd::prelude::*;

verus! {

/// Total budget of one fail-fast injection call.
pub const GLOBAL_INJECTION_BUDGET_MS: u64 = 1200;

/// Longest wait for a test body before it fails.
pub const TEST_WATCHDOG_TIMEOUT_SECS: u64 = 10;

/// Soft timeout of one backend attempt, retries included.
pub const PER_BACKEND_SOFT_TIMEOUT_MS: u64 = 600;

/// Timeout for acquiring focus on a target window.
pub const FOCUS_ACQUISITION_TIMEOUT_MS: u64 = 250;

/// Timeout of one AT-SPI method call.
pub const ATSPI_METHOD_TIMEOUT_MS: u64 = 500;

/// Timeout of a clipboard get or set round trip.
pub const CLIPBOARD_ROUNDTRIP_TIMEOUT_MS: u64 = 400;

/// Timeout for probing a subprocess for availability.
pub const SUBPROCESS_PROBE_TIMEOUT_MS: u64 = 150;

/// Timeout for running a clipboard tool.
pub const CLIPBOARD_TOOL_TIMEOUT_MS: u64 = 180;

/// Interval between readiness polls.
pub const READINESS_POLL_INTERVAL_MS: u64 = 30;

/// The global injection budget as a `Duration`.
pub fn global_injection_budget() -> (d: Duration)
    ensures
        d == millis_duration(GLOBAL_INJECTION_BUDGET_MS),
{
    duration_from_millis(GLOBAL_INJECTION_BUDGET_MS)
}

/// The test watchdog timeout as a `Duration` (ten seconds).
pub fn test_watchdog_timeout() -> (d: Duration)
    ensures
        d == millis_duration((TEST_WATCHDOG_TIMEOUT_SECS * 1000) as u64),
{
    duration_from_millis(TEST_WATCHDOG_TIMEOUT_SECS * 1000)
}

/// The per-backend soft timeout as a `Duration`.
pub fn per_backend_soft_timeout() -> (d: Duration)
    ensures
        d == millis_duration(PER_BACKEND_SOFT_TIMEOUT_MS),
{
    duration_from_millis(PER_BACKEND_SOFT_TIMEOUT_MS)
}

} // verus!
