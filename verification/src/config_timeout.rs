//! Validated timing configuration: every timeout and cooldown from the
//! injection configuration clamped to a sensible range, and the typing
//! delay derived from the keystroke rate.

use crate::time::{duration_from_millis, millis_duration};
use crate::types::InjectionConfig;
use std::time::Duration;
use vstd::prelude::*;

verus! {

/// Shortest timeout, against busy loops and instant timeouts.
pub const MIN_TIMEOUT_MS: u64 = 10;

/// Longest timeout, against excessively long waits.
pub const MAX_TIMEOUT_MS: u64 = 30_000;

/// Longest cooldown, so that no backend stays disabled for too long.
pub const MAX_COOLDOWN_MS: u64 = 600_000;

/// `ms` clamped to `[lo, hi]`.
pub open spec fn clamp_spec(ms: u64, lo: u64, hi: u64) -> u64 {
    if ms < lo {
        lo
    } else if ms > hi {
        hi
    } else {
        ms
    }
}

/// The delay between typed characters at `cps` characters per second
/// (rounded down), 50 ms when the rate is zero.
pub open spec fn keystroke_delay_spec(cps: u32) -> u64 {
    if cps > 0 {
        (1000int / (cps as int)) as u64
    } else {
        50
    }
}

fn clamp_ms(ms: u64, lo: u64, hi: u64) -> (r: u64)
    requires
        lo <= hi,
    ensures
        r == clamp_spec(ms, lo, hi),
{
    if ms < lo {
        lo
    } else if ms > hi {
        hi
    } else {
        ms
    }
}

/// A validated and clamped view of all timing settings.
#[derive(Debug, Clone, Copy)]
pub struct TimeoutConfig {
    max_total_latency_ms: u64,
    per_method_timeout_ms: u64,
    paste_action_timeout_ms: u64,
    cooldown_initial_ms: u64,
    cooldown_backoff_factor_permille: u64,
    cooldown_max_ms: u64,
    chunk_delay_ms: u64,
    keystroke_delay_ms: u64,
    focus_cache_duration_ms: u64,
    clipboard_restore_delay_ms: u64,
    discovery_timeout_ms: u64,
}

impl TimeoutConfig {
    pub closed spec fn spec_max_total_latency_ms(&self) -> u64 {
        self.max_total_latency_ms
    }

    pub closed spec fn spec_per_method_timeout_ms(&self) -> u64 {
        self.per_method_timeout_ms
    }

    pub closed spec fn spec_paste_action_timeout_ms(&self) -> u64 {
        self.paste_action_timeout_ms
    }

    pub closed spec fn spec_cooldown_initial_ms(&self) -> u64 {
        self.cooldown_initial_ms
    }

    pub closed spec fn spec_cooldown_backoff_factor_permille(&self) -> u64 {
        self.cooldown_backoff_factor_permille
    }

    pub closed spec fn spec_cooldown_max_ms(&self) -> u64 {
        self.cooldown_max_ms
    }

    pub closed spec fn spec_chunk_delay_ms(&self) -> u64 {
        self.chunk_delay_ms
    }

    pub closed spec fn spec_keystroke_delay_ms(&self) -> u64 {
        self.keystroke_delay_ms
    }

    pub closed spec fn spec_focus_cache_duration_ms(&self) -> u64 {
        self.focus_cache_duration_ms
    }

    pub closed spec fn spec_clipboard_restore_delay_ms(&self) -> u64 {
        self.clipboard_restore_delay_ms
    }

    pub closed spec fn spec_discovery_timeout_ms(&self) -> u64 {
        self.discovery_timeout_ms
    }

    /// Validates `config`: timeouts are clamped to `[MIN_TIMEOUT_MS,
    /// MAX_TIMEOUT_MS]`, cooldowns to `[MIN_TIMEOUT_MS, MAX_COOLDOWN_MS]`,
    /// the backoff factor is raised to at least one, the typing delay comes
    /// from the keystroke rate, and the clipboard restore delay defaults to
    /// 500 ms.
    pub fn new(config: &InjectionConfig) -> (t: Self)
        ensures
            t.spec_max_total_latency_ms() == clamp_spec(config.max_total_latency_ms, MIN_TIMEOUT_MS, MAX_TIMEOUT_MS),
            t.spec_per_method_timeout_ms() == clamp_spec(config.per_method_timeout_ms, MIN_TIMEOUT_MS, MAX_TIMEOUT_MS),
            t.spec_paste_action_timeout_ms() == clamp_spec(config.paste_action_timeout_ms, MIN_TIMEOUT_MS, MAX_TIMEOUT_MS),
            t.spec_cooldown_initial_ms() == clamp_spec(config.cooldown_initial_ms, MIN_TIMEOUT_MS, MAX_COOLDOWN_MS),
            t.spec_cooldown_backoff_factor_permille() == (if config.cooldown_backoff_factor_permille < 1000 {
                1000
            } else {
                config.cooldown_backoff_factor_permille
            }),
            t.spec_cooldown_max_ms() == clamp_spec(config.cooldown_max_ms, MIN_TIMEOUT_MS, MAX_COOLDOWN_MS),
            t.spec_chunk_delay_ms() == config.chunk_delay_ms,
            t.spec_keystroke_delay_ms() == keystroke_delay_spec(config.keystroke_rate_cps),
            t.spec_focus_cache_duration_ms() == config.focus_cache_duration_ms,
            t.spec_clipboard_restore_delay_ms() == match config.clipboard_restore_delay_ms {
                Some(ms) => ms,
                None => 500,
            },
            t.spec_discovery_timeout_ms() == clamp_spec(config.discovery_timeout_ms, MIN_TIMEOUT_MS, MAX_TIMEOUT_MS),
            MIN_TIMEOUT_MS <= t.spec_max_total_latency_ms() <= MAX_TIMEOUT_MS,
            MIN_TIMEOUT_MS <= t.spec_per_method_timeout_ms() <= MAX_TIMEOUT_MS,
            MIN_TIMEOUT_MS <= t.spec_paste_action_timeout_ms() <= MAX_TIMEOUT_MS,
            MIN_TIMEOUT_MS <= t.spec_cooldown_initial_ms() <= MAX_COOLDOWN_MS,
            MIN_TIMEOUT_MS <= t.spec_cooldown_max_ms() <= MAX_COOLDOWN_MS,
            MIN_TIMEOUT_MS <= t.spec_discovery_timeout_ms() <= MAX_TIMEOUT_MS,
            t.spec_cooldown_backoff_factor_permille() >= 1000,
    {
        let keystroke_delay_ms: u64 = if config.keystroke_rate_cps > 0 {
            1000 / (config.keystroke_rate_cps as u64)
        } else {
            50
        };
        TimeoutConfig {
            max_total_latency_ms: clamp_ms(config.max_total_latency_ms, MIN_TIMEOUT_MS, MAX_TIMEOUT_MS),
            per_method_timeout_ms: clamp_ms(config.per_method_timeout_ms, MIN_TIMEOUT_MS, MAX_TIMEOUT_MS),
            paste_action_timeout_ms: clamp_ms(config.paste_action_timeout_ms, MIN_TIMEOUT_MS, MAX_TIMEOUT_MS),
            cooldown_initial_ms: clamp_ms(config.cooldown_initial_ms, MIN_TIMEOUT_MS, MAX_COOLDOWN_MS),
            cooldown_backoff_factor_permille: if config.cooldown_backoff_factor_permille < 1000 {
                1000
            } else {
                config.cooldown_backoff_factor_permille
            },
            cooldown_max_ms: clamp_ms(config.cooldown_max_ms, MIN_TIMEOUT_MS, MAX_COOLDOWN_MS),
            chunk_delay_ms: config.chunk_delay_ms,
            keystroke_delay_ms,
            focus_cache_duration_ms: config.focus_cache_duration_ms,
            clipboard_restore_delay_ms: match config.clipboard_restore_delay_ms {
                Some(ms) => ms,
                None => 500,
            },
            discovery_timeout_ms: clamp_ms(config.discovery_timeout_ms, MIN_TIMEOUT_MS, MAX_TIMEOUT_MS),
        }
    }

    /// Overall latency budget of one injection call.
    pub fn max_total_latency(&self) -> (d: Duration)
        ensures
            d == millis_duration(self.spec_max_total_latency_ms()),
    {
        duration_from_millis(self.max_total_latency_ms)
    }

    /// Timeout of one method attempt.
    pub fn per_method_timeout(&self) -> (d: Duration)
        ensures
            d == millis_duration(self.spec_per_method_timeout_ms()),
    {
        duration_from_millis(self.per_method_timeout_ms)
    }

    /// Timeout of one paste action.
    pub fn paste_action_timeout(&self) -> (d: Duration)
        ensures
            d == millis_duration(self.spec_paste_action_timeout_ms()),
    {
        duration_from_millis(self.paste_action_timeout_ms)
    }

    /// First cooldown after a failure.
    pub fn cooldown_initial(&self) -> (d: Duration)
        ensures
            d == millis_duration(self.spec_cooldown_initial_ms()),
    {
        duration_from_millis(self.cooldown_initial_ms)
    }

    /// Growth of the cooldown per level, in thousandths (at least 1000).
    pub fn cooldown_backoff_factor(&self) -> (f: u64)
        ensures
            f == self.spec_cooldown_backoff_factor_permille(),
    {
        self.cooldown_backoff_factor_permille
    }

    /// Largest cooldown.
    pub fn cooldown_max(&self) -> (d: Duration)
        ensures
            d == millis_duration(self.spec_cooldown_max_ms()),
    {
        duration_from_millis(self.cooldown_max_ms)
    }

    /// Delay between paste chunks.
    pub fn chunk_delay(&self) -> (d: Duration)
        ensures
            d == millis_duration(self.spec_chunk_delay_ms()),
    {
        duration_from_millis(self.chunk_delay_ms)
    }

    /// Delay between typed characters.
    pub fn keystroke_delay(&self) -> (d: Duration)
        ensures
            d == millis_duration(self.spec_keystroke_delay_ms()),
    {
        duration_from_millis(self.keystroke_delay_ms)
    }

    /// How long a focus reading stays fresh.
    pub fn focus_cache_duration(&self) -> (d: Duration)
        ensures
            d == millis_duration(self.spec_focus_cache_duration_ms()),
    {
        duration_from_millis(self.focus_cache_duration_ms)
    }

    /// Delay before the clipboard is restored.
    pub fn clipboard_restore_delay(&self) -> (d: Duration)
        ensures
            d == millis_duration(self.spec_clipboard_restore_delay_ms()),
    {
        duration_from_millis(self.clipboard_restore_delay_ms)
    }

    /// Timeout of window discovery.
    pub fn discovery_timeout(&self) -> (d: Duration)
        ensures
            d == millis_duration(self.spec_discovery_timeout_ms()),
    {
        duration_from_millis(self.discovery_timeout_ms)
    }
}

} // verus!
