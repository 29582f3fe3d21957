//! Core vocabulary shared by the planners: injection methods, modes and the
//! injection configuration.

use crate::time::{duration_from_millis, millis_duration};
use std::time::Duration;
use vstd::prelude::*;
use vstd::string::StringExecFns;

verus! {

/// A way of getting text into the focused application.
#[derive(Debug, Clone, Copy, PartialEq, Eq, Hash, Structural)]
pub enum InjectionMethod {
    /// Direct insertion through the AT-SPI EditableText interface.
    AtspiInsert,
    /// Clipboard seeding followed by a paste action.
    ClipboardAndPaste,
    /// Clipboard seeding only.
    Clipboard,
    /// KDE window activation assistance.
    KdoToolAssist,
    /// Synthetic key events through enigo.
    EnigoText,
    /// Paste through ydotool.
    YdoToolPaste,
    /// Unified clipboard paste with its own internal fallbacks.
    ClipboardPasteFallback,
    /// Does nothing and always succeeds.
    NoOp,
}

/// Whether text is pasted in one go or typed.
#[derive(Debug, Clone, Copy, PartialEq, Eq, Structural)]
pub enum InjectionMode {
    Paste,
    Keystroke,
}

} // verus!

verus! {

/// Configuration of the injection system. Durations are in milliseconds and
/// the cooldown backoff factor is in thousandths (2000 means a factor of 2).
#[derive(Debug, Clone)]
pub struct InjectionConfig {
    /// Allow KDE window activation assistance.
    pub allow_kdotool: bool,
    /// Allow synthetic key events through enigo.
    pub allow_enigo: bool,
    /// Allow ydotool as an opt-in paste method.
    pub allow_ydotool: bool,
    /// Allow the mouse-keyboard-input backend.
    pub allow_mki: bool,
    /// Overall latency budget of one injection call.
    pub max_total_latency_ms: u64,
    /// Timeout of one method attempt.
    pub per_method_timeout_ms: u64,
    /// Timeout of one paste action.
    pub paste_action_timeout_ms: u64,
    /// First cooldown after a failure.
    pub cooldown_initial_ms: u64,
    /// Growth of the cooldown per backoff level, in thousandths.
    pub cooldown_backoff_factor_permille: u64,
    /// Largest cooldown.
    pub cooldown_max_ms: u64,
    /// Delay between paste chunks.
    pub chunk_delay_ms: u64,
    /// Typing rate in characters per second.
    pub keystroke_rate_cps: u32,
    /// Largest burst typed at once.
    pub max_burst_chars: u32,
    /// Texts longer than this are pasted in automatic mode.
    pub paste_chunk_chars: u32,
    /// How long a focus reading stays fresh.
    pub focus_cache_duration_ms: u64,
    /// Delay before the clipboard is restored (500 ms when unset).
    pub clipboard_restore_delay_ms: Option<u64>,
    /// Timeout of window discovery.
    pub discovery_timeout_ms: u64,
    /// Refuse to inject into a focused element that is not editable.
    pub require_focus: bool,
    /// Inject even when the focus state cannot be determined.
    pub inject_on_unknown_focus: bool,
    /// Application patterns that alone may receive text (when not empty).
    pub allowlist: Vec<String>,
    /// Application patterns that may not receive text.
    pub blocklist: Vec<String>,
    /// "paste", "keystroke" or "auto".
    pub injection_mode: String,
    /// Keep text out of logs.
    pub redact_logs: bool,
    /// Abort the process when every method failed.
    pub fail_fast: bool,
}

pub open spec fn default_config_spec(c: InjectionConfig) -> bool {
    &&& !c.allow_kdotool && !c.allow_enigo && !c.allow_ydotool && !c.allow_mki
    &&& c.max_total_latency_ms == 800
    &&& c.per_method_timeout_ms == 250
    &&& c.paste_action_timeout_ms == 200
    &&& c.cooldown_initial_ms == 10000
    &&& c.cooldown_backoff_factor_permille == 2000
    &&& c.cooldown_max_ms == 300000
    &&& c.chunk_delay_ms == 30
    &&& c.keystroke_rate_cps == 20
    &&& c.max_burst_chars == 50
    &&& c.paste_chunk_chars == 500
    &&& c.focus_cache_duration_ms == 200
    &&& c.clipboard_restore_delay_ms == Some(500u64)
    &&& c.discovery_timeout_ms == 1000
    &&& !c.require_focus
    &&& c.inject_on_unknown_focus
    &&& c.allowlist@.len() == 0
    &&& c.blocklist@.len() == 0
    &&& c.injection_mode@ == "auto"@
    &&& c.redact_logs
    &&& !c.fail_fast
}

impl Default for InjectionConfig {
    fn default() -> (c: Self)
        ensures
            default_config_spec(c),
    {
        InjectionConfig {
            allow_kdotool: false,
            allow_enigo: false,
            allow_ydotool: false,
            allow_mki: false,
            max_total_latency_ms: 800,
            per_method_timeout_ms: 250,
            paste_action_timeout_ms: 200,
            cooldown_initial_ms: 10000,
            cooldown_backoff_factor_permille: 2000,
            cooldown_max_ms: 300000,
            chunk_delay_ms: 30,
            keystroke_rate_cps: 20,
            max_burst_chars: 50,
            paste_chunk_chars: 500,
            focus_cache_duration_ms: 200,
            clipboard_restore_delay_ms: Some(500),
            discovery_timeout_ms: 1000,
            require_focus: false,
            inject_on_unknown_focus: true,
            allowlist: Vec::new(),
            blocklist: Vec::new(),
            injection_mode: String::from_str("auto"),
            redact_logs: true,
            fail_fast: false,
        }
    }
}

impl InjectionConfig {
    /// The per-method timeout as a `Duration`.
    pub fn per_method_timeout(&self) -> (d: Duration)
        ensures
            d == millis_duration(self.per_method_timeout_ms),
    {
        duration_from_millis(self.per_method_timeout_ms)
    }

    /// The paste action timeout as a `Duration`.
    pub fn paste_action_timeout(&self) -> (d: Duration)
        ensures
            d == millis_duration(self.paste_action_timeout_ms),
    {
        duration_from_millis(self.paste_action_timeout_ms)
    }

    /// The overall latency budget as a `Duration`.
    pub fn max_total_latency(&self) -> (d: Duration)
        ensures
            d == millis_duration(self.max_total_latency_ms),
    {
        duration_from_millis(self.max_total_latency_ms)
    }
}

} // verus!

verus! {

/// Per-method injection statistics.
#[derive(Debug, Clone)]
pub struct MethodMetrics {
    pub method: InjectionMethod,
    pub attempts: u64,
    pub successes: u64,
    pub failures: u64,
    /// Sum of the durations of all attempts.
    pub total_duration_ms: u64,
    /// Message of the most recent failure.
    pub last_error: Option<String>,
}

/// Telemetry counters of the injection system. Every counter saturates at
/// `u64::MAX` rather than wrapping.
#[derive(Debug, Clone)]
pub struct InjectionMetrics {
    pub attempts: u64,
    pub successes: u64,
    pub failures: u64,
    /// Characters (UTF-8 bytes) that entered a session buffer.
    pub chars_buffered: u64,
    /// Characters (UTF-8 bytes) handed to injectors.
    pub chars_injected: u64,
    /// Number of buffer flushes.
    pub flushes: u64,
    /// Size of the most recent flush.
    pub last_flush_size: u64,
    pub paste_operations: u64,
    pub keystroke_operations: u64,
    /// Injections refused because the latency budget was spent.
    pub rate_limited: u64,
    /// Injections refused because of the focus state.
    pub focus_missing: u64,
    /// Times no suitable backend was found.
    pub backend_denied: u64,
    /// Latency from the last final transcription to its injection.
    pub last_latency_from_final_ms: Option<u64>,
    /// Number of injections started.
    pub injections_started: u64,
    /// Per-method statistics, at most one entry per method.
    pub method_metrics: Vec<MethodMetrics>,
}

/// Each method has at most one statistics entry.
pub open spec fn unique_methods(entries: Seq<MethodMetrics>) -> bool {
    forall|i: int, j: int|
        0 <= i < j < entries.len() ==> entries[i].method != entries[j].method
}

/// Position of the entry of `m`, if any.
pub open spec fn method_entry_index(entries: Seq<MethodMetrics>, m: InjectionMethod) -> Option<int> {
    if exists|i: int| 0 <= i < entries.len() && entries[i].method == m {
        Some(choose|i: int| 0 <= i < entries.len() && entries[i].method == m)
    } else {
        None
    }
}

impl InjectionMetrics {
    pub open spec fn wf(&self) -> bool {
        unique_methods(self.method_metrics@)
    }

    /// All counters zero, no per-method entries.
    pub fn new() -> (m: Self)
        ensures
            m.wf(),
            m.attempts == 0 && m.successes == 0 && m.failures == 0,
            m.chars_buffered == 0 && m.chars_injected == 0 && m.flushes == 0,
            m.last_flush_size == 0 && m.paste_operations == 0 && m.keystroke_operations == 0,
            m.rate_limited == 0 && m.focus_missing == 0 && m.backend_denied == 0,
            m.last_latency_from_final_ms.is_none() && m.injections_started == 0,
            m.method_metrics@.len() == 0,
    {
        InjectionMetrics {
            attempts: 0,
            successes: 0,
            failures: 0,
            chars_buffered: 0,
            chars_injected: 0,
            flushes: 0,
            last_flush_size: 0,
            paste_operations: 0,
            keystroke_operations: 0,
            rate_limited: 0,
            focus_missing: 0,
            backend_denied: 0,
            last_latency_from_final_ms: None,
            injections_started: 0,
            method_metrics: Vec::new(),
        }
    }

    /// Counts characters that entered a session buffer.
    pub fn record_buffered_chars(&mut self, count: u64)
        ensures
            *final(self) == (InjectionMetrics { chars_buffered: old(self).chars_buffered.saturating_add(count), ..*old(self) }),
    {
        self.chars_buffered = self.chars_buffered.saturating_add(count);
    }

    /// Counts a buffer flush of `size` characters.
    pub fn record_flush(&mut self, size: u64)
        ensures
            *final(self) == (InjectionMetrics { flushes: old(self).flushes.saturating_add(1), last_flush_size: size, ..*old(self) }),
    {
        self.flushes = self.flushes.saturating_add(1);
        self.last_flush_size = size;
    }

    /// Counts characters handed to an injector.
    pub fn record_injected_chars(&mut self, count: u64)
        ensures
            *final(self) == (InjectionMetrics { chars_injected: old(self).chars_injected.saturating_add(count), ..*old(self) }),
    {
        self.chars_injected = self.chars_injected.saturating_add(count);
    }

    /// Counts a paste operation.
    pub fn record_paste(&mut self)
        ensures
            *final(self) == (InjectionMetrics { paste_operations: old(self).paste_operations.saturating_add(1), ..*old(self) }),
    {
        self.paste_operations = self.paste_operations.saturating_add(1);
    }

    /// Counts a keystroke operation.
    pub fn record_keystroke(&mut self)
        ensures
            *final(self) == (InjectionMetrics { keystroke_operations: old(self).keystroke_operations.saturating_add(1), ..*old(self) }),
    {
        self.keystroke_operations = self.keystroke_operations.saturating_add(1);
    }

    /// Counts an injection refused for lack of budget.
    pub fn record_rate_limited(&mut self)
        ensures
            *final(self) == (InjectionMetrics { rate_limited: old(self).rate_limited.saturating_add(1), ..*old(self) }),
    {
        self.rate_limited = self.rate_limited.saturating_add(1);
    }

    /// Counts an injection refused because of the focus state.
    pub fn record_focus_missing(&mut self)
        ensures
            *final(self) == (InjectionMetrics { focus_missing: old(self).focus_missing.saturating_add(1), ..*old(self) }),
    {
        self.focus_missing = self.focus_missing.saturating_add(1);
    }

    /// Counts a failed backend selection.
    pub fn record_backend_denied(&mut self)
        ensures
            *final(self) == (InjectionMetrics { backend_denied: old(self).backend_denied.saturating_add(1), ..*old(self) }),
    {
        self.backend_denied = self.backend_denied.saturating_add(1);
    }

    /// Records the latency from a final transcription to its injection.
    pub fn record_latency_from_final(&mut self, ms: u64)
        ensures
            *final(self) == (InjectionMetrics { last_latency_from_final_ms: Some(ms), ..*old(self) }),
    {
        self.last_latency_from_final_ms = Some(ms);
    }

    /// Counts the start of an injection.
    pub fn update_last_injection(&mut self)
        ensures
            *final(self) == (InjectionMetrics { injections_started: old(self).injections_started.saturating_add(1), ..*old(self) }),
    {
        self.injections_started = self.injections_started.saturating_add(1);
    }

    /// Index of the entry of `method`, adding a zeroed entry when there is none.
    fn method_entry(&mut self, method: InjectionMethod) -> (idx: usize)
        requires
            old(self).wf(),
        ensures
            final(self).wf(),
            idx < final(self).method_metrics@.len(),
            final(self).method_metrics@[idx as int].method == method,
            method_entry_index(old(self).method_metrics@, method) matches Some(k) ==> {
                &&& idx == k
                &&& final(self).method_metrics@ == old(self).method_metrics@
            },
            method_entry_index(old(self).method_metrics@, method) is None ==> {
                &&& idx == old(self).method_metrics@.len()
                &&& final(self).method_metrics@ == old(self).method_metrics@.push(
                    MethodMetrics {
                        method,
                        attempts: 0,
                        successes: 0,
                        failures: 0,
                        total_duration_ms: 0,
                        last_error: None,
                    },
                )
            },
            *final(self) == (InjectionMetrics { method_metrics: final(self).method_metrics, ..*old(self) }),
    {
        let n = self.method_metrics.len();
        let mut i: usize = 0;
        while i < n
            invariant
                n == self.method_metrics@.len(),
                i <= n,
                unique_methods(self.method_metrics@),
                forall|k: int| 0 <= k < i ==> self.method_metrics@[k].method != method,
            decreases n - i,
        {
            if self.method_metrics[i].method == method {
                proof {
                    let k = choose|k: int|
                        0 <= k < self.method_metrics@.len() && self.method_metrics@[k].method
                            == method;
                    assert(k == i as int);
                }
                return i;
            }
            i += 1;
        }
        self.method_metrics.push(
            MethodMetrics {
                method,
                attempts: 0,
                successes: 0,
                failures: 0,
                total_duration_ms: 0,
                last_error: None,
            },
        );
        n
    }

    /// Records a successful attempt of `method` that took `duration_ms`.
    pub fn record_success(&mut self, method: InjectionMethod, duration_ms: u64)
        requires
            old(self).wf(),
        ensures
            final(self).wf(),
            *final(self) == (InjectionMetrics {
                attempts: old(self).attempts.saturating_add(1),
                successes: old(self).successes.saturating_add(1),
                method_metrics: final(self).method_metrics,
                ..*old(self)
            }),
            method_stats_after(old(self).method_metrics@, final(self).method_metrics@, method, true, duration_ms, None),
            outcome_recorded(*old(self), *final(self), true),
    {
        let i = self.method_entry(method);
        self.attempts = self.attempts.saturating_add(1);
        self.successes = self.successes.saturating_add(1);
        let cur = &self.method_metrics[i];
        let e = MethodMetrics {
            method: cur.method,
            attempts: cur.attempts.saturating_add(1),
            successes: cur.successes.saturating_add(1),
            failures: cur.failures,
            total_duration_ms: cur.total_duration_ms.saturating_add(duration_ms),
            last_error: clone_opt_string(&cur.last_error),
        };
        self.method_metrics.set(i, e);
    }

    /// Records a failed attempt of `method` that took `duration_ms`.
    pub fn record_failure(&mut self, method: InjectionMethod, duration_ms: u64, error: String)
        requires
            old(self).wf(),
        ensures
            final(self).wf(),
            *final(self) == (InjectionMetrics {
                attempts: old(self).attempts.saturating_add(1),
                failures: old(self).failures.saturating_add(1),
                method_metrics: final(self).method_metrics,
                ..*old(self)
            }),
            method_stats_after(old(self).method_metrics@, final(self).method_metrics@, method, false, duration_ms, Some(error)),
            outcome_recorded(*old(self), *final(self), false),
    {
        let i = self.method_entry(method);
        self.attempts = self.attempts.saturating_add(1);
        self.failures = self.failures.saturating_add(1);
        let cur = &self.method_metrics[i];
        let e = MethodMetrics {
            method: cur.method,
            attempts: cur.attempts.saturating_add(1),
            successes: cur.successes,
            failures: cur.failures.saturating_add(1),
            total_duration_ms: cur.total_duration_ms.saturating_add(duration_ms),
            last_error: Some(error),
        };
        self.method_metrics.set(i, e);
    }
}

/// A copy of an optional string.
pub fn clone_opt_string(o: &Option<String>) -> (r: Option<String>)
    ensures
        r == *o,
{
    match o {
        Some(s) => Some(s.clone()),
        None => None,
    }
}

/// The entry of `m` before an update: the existing one, or a zeroed one.
pub open spec fn entry_before(entries: Seq<MethodMetrics>, m: InjectionMethod) -> MethodMetrics {
    match method_entry_index(entries, m) {
        Some(k) => entries[k],
        None => MethodMetrics {
            method: m,
            attempts: 0,
            successes: 0,
            failures: 0,
            total_duration_ms: 0,
            last_error: None,
        },
    }
}

/// Successes and failures add up to the attempts.
pub open spec fn counters_balanced(m: InjectionMetrics) -> bool {
    m.successes + m.failures == m.attempts
}

/// The successes and failures of a method's entry add up to its attempts.
pub open spec fn entry_balanced(e: MethodMetrics) -> bool {
    e.successes + e.failures == e.attempts
}

/// `post` counts one more attempt than `pre`, as a success or as a failure.
pub open spec fn outcome_recorded(pre: InjectionMetrics, post: InjectionMetrics, success: bool) -> bool {
    &&& post.attempts == pre.attempts.saturating_add(1)
    &&& post.successes == (if success { pre.successes.saturating_add(1) } else { pre.successes })
    &&& post.failures == (if success { pre.failures } else { pre.failures.saturating_add(1) })
}

/// Every success and every failure is an attempt: counting outcomes keeps
/// the successes and failures adding up to the attempts, overall, as long
/// as the attempt counter is below its maximum (where counters saturate).
pub proof fn lemma_outcome_keeps_counters_balanced(pre: InjectionMetrics, post: InjectionMetrics, success: bool)
    requires
        counters_balanced(pre),
        pre.attempts < u64::MAX,
        outcome_recorded(pre, post, success),
    ensures
        counters_balanced(post),
{
}

/// The same holds of every method's entry: when all entries add up and the
/// counted method's attempts are below the maximum, they all still add up
/// after one more outcome of that method.
pub proof fn lemma_outcome_keeps_entries_balanced(
    pre: Seq<MethodMetrics>,
    post: Seq<MethodMetrics>,
    m: InjectionMethod,
    success: bool,
    duration_ms: u64,
    error: Option<String>,
)
    requires
        forall|j: int| 0 <= j < pre.len() ==> entry_balanced(#[trigger] pre[j]),
        entry_before(pre, m).attempts < u64::MAX,
        method_stats_after(pre, post, m, success, duration_ms, error),
    ensures
        forall|j: int| 0 <= j < post.len() ==> entry_balanced(#[trigger] post[j]),
{
    let e = entry_before(pre, m);
    if let Some(k) = method_entry_index(pre, m) {
        assert(entry_balanced(pre[k]));
    }
    assert(entry_balanced(e));
}

/// `post` is `pre` with the entry of `m` counting one more attempt, which
/// succeeded or failed (with `error`) after `duration_ms`.
pub open spec fn method_stats_after(
    pre: Seq<MethodMetrics>,
    post: Seq<MethodMetrics>,
    m: InjectionMethod,
    success: bool,
    duration_ms: u64,
    error: Option<String>,
) -> bool {
    let e = entry_before(pre, m);
    let k = match method_entry_index(pre, m) {
        Some(k) => k,
        None => pre.len() as int,
    };
    &&& post.len() == (if method_entry_index(pre, m) is Some { pre.len() } else { pre.len() + 1 })
    &&& forall|j: int| 0 <= j < pre.len() && j != k ==> post[j] == pre[j]
    &&& post[k].method == m
    &&& post[k].attempts == e.attempts.saturating_add(1)
    &&& post[k].successes == (if success { e.successes.saturating_add(1) } else { e.successes })
    &&& post[k].failures == (if success { e.failures } else { e.failures.saturating_add(1) })
    &&& post[k].total_duration_ms == e.total_duration_ms.saturating_add(duration_ms)
    &&& post[k].last_error == (if success { e.last_error } else { error })
}

} // verus!

verus! {

/// Errors of the injection system.
#[derive(Debug, Clone, PartialEq, Eq)]
pub enum InjectionError {
    /// The latency budget was spent before a method succeeded.
    BudgetExhausted,
    /// The focused element does not accept text.
    NoEditableFocus,
    /// A method ran and failed.
    MethodFailed(String),
    /// A method cannot run in this environment.
    MethodUnavailable(String),
    /// A method is not enabled by the configuration.
    MethodNotAvailable(String),
    /// An operation timed out after the given milliseconds.
    Timeout(u64),
    /// An external process failed.
    Process(String),
    /// A clipboard operation failed.
    Clipboard(String),
    /// Every strategy failed.
    AllMethodsFailed(String),
    /// Anything else.
    Other(String),
}

/// The message of an error, as it is logged and remembered.
pub open spec fn error_message(e: InjectionError) -> Seq<char> {
    match e {
        InjectionError::BudgetExhausted => "Budget exhausted"@,
        InjectionError::NoEditableFocus => "No editable focus found"@,
        InjectionError::MethodFailed(s) => "Method failed: "@ + s@,
        InjectionError::MethodUnavailable(s) => "Method unavailable: "@ + s@,
        InjectionError::MethodNotAvailable(s) => "Method not available: "@ + s@,
        InjectionError::Timeout(ms) => "Timeout after "@ + crate::text::decimal(ms as nat) + "ms"@,
        InjectionError::Process(s) => "Process error: "@ + s@,
        InjectionError::Clipboard(s) => "Clipboard error: "@ + s@,
        InjectionError::AllMethodsFailed(s) => "All methods failed: "@ + s@,
        InjectionError::Other(s) => s@,
    }
}

impl InjectionError {
    /// The message of this error.
    pub fn message(&self) -> (m: String)
        ensures
            m@ == error_message(*self),
    {
        match self {
            InjectionError::BudgetExhausted => String::from_str("Budget exhausted"),
            InjectionError::NoEditableFocus => String::from_str("No editable focus found"),
            InjectionError::MethodFailed(s) => String::from_str("Method failed: ").concat(s.as_str()),
            InjectionError::MethodUnavailable(s) => String::from_str("Method unavailable: ").concat(s.as_str()),
            InjectionError::MethodNotAvailable(s) => String::from_str("Method not available: ").concat(s.as_str()),
            InjectionError::Timeout(ms) => {
                let digits = crate::text::u64_to_decimal(*ms);
                String::from_str("Timeout after ").concat(digits.as_str()).concat("ms")
            },
            InjectionError::Process(s) => String::from_str("Process error: ").concat(s.as_str()),
            InjectionError::Clipboard(s) => String::from_str("Clipboard error: ").concat(s.as_str()),
            InjectionError::AllMethodsFailed(s) => String::from_str("All methods failed: ").concat(s.as_str()),
            InjectionError::Other(s) => s.clone(),
        }
    }
}

/// Result of an injection operation.
pub type InjectionResult<T> = Result<T, InjectionError>;

/// Pre-gathered context for one injection.
#[derive(Debug, Clone)]
pub struct InjectionContext {
    /// Target application identifier.
    pub target_app: Option<String>,
    /// Window identifier.
    pub window_id: Option<String>,
    /// Path of the focused AT-SPI node.
    pub atspi_focused_node_path: Option<String>,
    /// A clipboard backup taken beforehand.
    pub clipboard_backup: Option<crate::clipboard::ClipboardBackup>,
    /// Paste or type, overriding the configuration.
    pub mode_override: Option<InjectionMode>,
}

impl Default for InjectionContext {
    fn default() -> (c: Self)
        ensures
            c.target_app is None,
            c.window_id is None,
            c.atspi_focused_node_path is None,
            c.clipboard_backup is None,
            c.mode_override is None,
    {
        InjectionContext {
            target_app: None,
            window_id: None,
            atspi_focused_node_path: None,
            clipboard_backup: None,
            mode_override: None,
        }
    }
}

/// The mode that a configured mode name and a text length select: "paste"
/// and "keystroke" select themselves; anything else (including "auto")
/// pastes texts longer than the paste threshold and types the others.
pub open spec fn effective_mode(mode_name: Seq<char>, text_bytes: nat, paste_chunk_chars: u32) -> InjectionMode {
    if mode_name == "paste"@ {
        InjectionMode::Paste
    } else if mode_name == "keystroke"@ {
        InjectionMode::Keystroke
    } else if text_bytes > paste_chunk_chars {
        InjectionMode::Paste
    } else {
        InjectionMode::Keystroke
    }
}

/// A configured mode of "paste" always pastes and one of "keystroke" always
/// types, whatever the length of the text; with any other mode name the
/// text is pasted exactly when it is longer than the paste threshold, so a
/// longer text is never typed where a shorter one is pasted.
pub proof fn lemma_configured_mode_decides(mode_name: Seq<char>, text_bytes: nat, longer: nat, paste_chunk_chars: u32)
    requires
        text_bytes <= longer,
    ensures
        mode_name == "paste"@ ==> effective_mode(mode_name, text_bytes, paste_chunk_chars) == InjectionMode::Paste,
        mode_name == "keystroke"@ ==> effective_mode(mode_name, text_bytes, paste_chunk_chars)
            == InjectionMode::Keystroke,
        mode_name != "paste"@ && mode_name != "keystroke"@ ==> (effective_mode(
            mode_name,
            text_bytes,
            paste_chunk_chars,
        ) == InjectionMode::Paste) == (text_bytes > paste_chunk_chars),
        effective_mode(mode_name, text_bytes, paste_chunk_chars) == InjectionMode::Paste ==> effective_mode(
            mode_name,
            longer,
            paste_chunk_chars,
        ) == InjectionMode::Paste,
{
    reveal_strlit("paste");
    reveal_strlit("keystroke");
    assert("paste"@ != "keystroke"@) by {
        assert("paste"@.len() != "keystroke"@.len());
    }
}

/// Chooses paste or keystroke for a text of `text_bytes` UTF-8 bytes.
pub fn choose_injection_mode(config: &InjectionConfig, text_bytes: usize) -> (m: InjectionMode)
    ensures
        m == effective_mode(config.injection_mode@, text_bytes as nat, config.paste_chunk_chars),
        config.injection_mode@ == "paste"@ ==> m == InjectionMode::Paste,
        config.injection_mode@ == "keystroke"@ ==> m == InjectionMode::Keystroke,
{
    proof {
        lemma_configured_mode_decides(config.injection_mode@, text_bytes as nat, text_bytes as nat, config.paste_chunk_chars);
    }
    let name = config.injection_mode.as_str();
    if crate::text::str_eq(name, "paste") {
        InjectionMode::Paste
    } else if crate::text::str_eq(name, "keystroke") {
        InjectionMode::Keystroke
    } else if text_bytes > config.paste_chunk_chars as usize {
        InjectionMode::Paste
    } else {
        InjectionMode::Keystroke
    }
}

} // verus!
