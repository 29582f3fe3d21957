//! The adaptive strategy manager: which methods to try and in what order,
//! which applications may receive text, per-application success records,
//! exponential cooldowns after failures, the latency budget, and the
//! step-by-step decisions of one injection (the caller runs the injectors
//! and reports each outcome back).
//!
//! Times are milliseconds of a monotonic clock that the caller reads.

use crate::backoff::{backoff_exact, capped, lemma_backoff_exact_step, scaled_backoff};
use crate::backend::{available_backends, first_available, preferred_order_spec, BackendDetector};
use crate::backend_plan::{contains_method, dedup, dedup_methods, lemma_dedup, no_duplicates};
use crate::env::{on_wayland_any_case, on_x11_any_case, EnvironmentProbe};
use crate::focus::{status_of_query, FocusStatus};
use crate::patterns::{
    any_matches, any_pattern_matches, compile_patterns, compiling_patterns,
    lemma_compiling_patterns_compile,
};
use crate::records::{
    entries_view, entry_key, lemma_entries_view_key_source, lemma_entries_view_keys, same_except,
    KeyedTable, RecordKey,
};
use crate::text::string_views;
use crate::types::{
    choose_injection_mode, effective_mode, error_message, method_stats_after, InjectionConfig,
    InjectionError, InjectionMethod, InjectionMetrics, InjectionMode, InjectionResult,
};
use vstd::prelude::*;
use vstd::string::StringExecFns;
use vstd::string::StringSliceAdditionalSpecFns;
use vstd::utf8::is_char_boundary;

verus! {

/// Success and failure counts of one application-method pair.
#[derive(Debug, Clone, Copy)]
pub struct SuccessRecord {
    pub success_count: u32,
    pub fail_count: u32,
    pub last_success_ms: Option<u64>,
    pub last_failure_ms: Option<u64>,
}

/// Cooldown of one application-method pair.
#[derive(Debug, Clone)]
pub struct CooldownState {
    /// The method may be tried again from this time on.
    pub until_ms: u64,
    /// How many cooldowns were applied so far.
    pub backoff_level: u32,
    /// The error that caused the latest cooldown.
    pub last_error: String,
}

/// The record after one more outcome (counts saturate at `u32::MAX`).
pub open spec fn record_after(prev: Option<SuccessRecord>, success: bool, now: u64) -> SuccessRecord {
    let r = match prev {
        Some(r) => r,
        None => SuccessRecord {
            success_count: 0,
            fail_count: 0,
            last_success_ms: None,
            last_failure_ms: None,
        },
    };
    if success {
        SuccessRecord {
            success_count: r.success_count.saturating_add(1),
            last_success_ms: Some(now),
            ..r
        }
    } else {
        SuccessRecord {
            fail_count: r.fail_count.saturating_add(1),
            last_failure_ms: Some(now),
            ..r
        }
    }
}

/// Length of the cooldown applied at backoff level `level`: the initial
/// length times the factor to the power `level`, rounded down once and
/// capped at the maximum.
pub open spec fn cooldown_ms_for(config: InjectionConfig, level: nat) -> u64 {
    capped(
        backoff_exact(config.cooldown_initial_ms, config.cooldown_backoff_factor_permille, level),
        config.cooldown_max_ms,
    )
}

/// The application `app` has `m` in a cooldown that lasts beyond `now`.
pub open spec fn cooldown_active(cool: Map<RecordKey, CooldownState>, app: Seq<char>, m: InjectionMethod, now: u64) -> bool {
    cool.contains_key((app, m)) && now < cool[(app, m)].until_ms
}

/// The methods in the order that both `get_method_priority` and the method
/// order computation produce: AT-SPI on a Wayland or X11 session (the session
/// type read in any case), then the opt-in methods, then the unified clipboard paste, then `NoOp`.
pub open spec fn method_order_spec(config: InjectionConfig, env: EnvironmentProbe) -> Seq<InjectionMethod> {
    dedup(
        (if on_wayland_any_case(env) || on_x11_any_case(env) { seq![InjectionMethod::AtspiInsert] } else { seq![] })
            + (if config.allow_kdotool { seq![InjectionMethod::KdoToolAssist] } else { seq![] })
            + (if config.allow_enigo { seq![InjectionMethod::EnigoText] } else { seq![] })
            + seq![InjectionMethod::ClipboardPasteFallback],
    ).push(InjectionMethod::NoOp)
}

/// Whether an application may receive text: with an allowlist, only
/// applications that a compiling allowlist pattern matches; otherwise, with
/// a blocklist, all applications that no compiling blocklist pattern
/// matches; otherwise all applications.
pub open spec fn app_allowed_spec(config: InjectionConfig, app_id: Seq<char>) -> bool {
    if config.allowlist@.len() > 0 {
        any_matches(compiling_patterns(string_views(config.allowlist@)), app_id)
    } else if config.blocklist@.len() > 0 {
        !any_matches(compiling_patterns(string_views(config.blocklist@)), app_id)
    } else {
        true
    }
}

/// The backoff level of the cooldown at `k` (zero when there is none).
pub open spec fn cooldown_level(cool: Map<RecordKey, CooldownState>, k: RecordKey) -> u32 {
    if cool.contains_key(k) {
        cool[k].backoff_level
    } else {
        0
    }
}

/// `new` is `old` with the cooldown at `k` set to the given values.
pub open spec fn cooldown_set(
    old: Map<RecordKey, CooldownState>,
    new: Map<RecordKey, CooldownState>,
    k: RecordKey,
    until_ms: u64,
    level: u32,
    error: Seq<char>,
) -> bool {
    &&& new.contains_key(k)
    &&& new[k].until_ms == until_ms
    &&& new[k].backoff_level == level
    &&& new[k].last_error@ == error
    &&& same_except(old, new, k)
}

/// `new` is `old` after one more cooldown of (`k`) at `now` for `error`:
/// it lasts the length of the current level, and the level goes up by one.
pub open spec fn cooldown_applied(
    config: InjectionConfig,
    old: Map<RecordKey, CooldownState>,
    new: Map<RecordKey, CooldownState>,
    k: RecordKey,
    now: u64,
    error: Seq<char>,
) -> bool {
    let level = cooldown_level(old, k);
    cooldown_set(old, new, k, now.saturating_add(cooldown_ms_for(config, level as nat)), level.saturating_add(1), error)
}

/// The success record at `k`, if any.
pub open spec fn record_at(success: Map<RecordKey, SuccessRecord>, k: RecordKey) -> Option<SuccessRecord> {
    if success.contains_key(k) {
        Some(success[k])
    } else {
        None
    }
}

/// A failure that brings the failure count of `k` above two triggers a cooldown.
pub open spec fn failure_triggers_cooldown(success: Map<RecordKey, SuccessRecord>, k: RecordKey, now: u64) -> bool {
    record_after(record_at(success, k), false, now).fail_count > 2
}

/// A method that is outside the application's cooldown at `now` and has an injector.
pub open spec fn method_usable(
    cool: Map<RecordKey, CooldownState>,
    app: Seq<char>,
    registered: Seq<InjectionMethod>,
    m: InjectionMethod,
    now: u64,
) -> bool {
    !cooldown_active(cool, app, m, now) && registered.contains(m)
}

/// The first position from `i` on whose method is outside the
/// application's cooldown, or the length.
pub open spec fn next_outside_cooldown(
    methods: Seq<InjectionMethod>,
    i: int,
    cool: Map<RecordKey, CooldownState>,
    app: Seq<char>,
    now: u64,
) -> int
    decreases methods.len() - i,
{
    if i >= methods.len() || i < 0 {
        methods.len() as int
    } else if !cooldown_active(cool, app, methods[i], now) {
        i
    } else {
        next_outside_cooldown(methods, i + 1, cool, app, now)
    }
}

/// The first position from `i` on whose method is usable, or the length.
pub open spec fn next_usable(
    methods: Seq<InjectionMethod>,
    i: int,
    cool: Map<RecordKey, CooldownState>,
    app: Seq<char>,
    registered: Seq<InjectionMethod>,
    now: u64,
) -> int
    decreases methods.len() - i,
{
    if i >= methods.len() || i < 0 {
        methods.len() as int
    } else if method_usable(cool, app, registered, methods[i], now) {
        i
    } else {
        next_usable(methods, i + 1, cool, app, registered, now)
    }
}

/// What the caller does next in an injection.
#[derive(Debug)]
pub enum InjectionStep {
    /// Run the injector of this method and report the outcome.
    Attempt(InjectionMethod),
    /// The injection is over with this result.
    Finished(InjectionResult<()>),
    /// Every method failed and fail-fast is configured: report and exit the process.
    AbortProcess,
}

/// The progress of one injection through its method order.
#[derive(Debug)]
pub struct InjectionRun {
    app_id: String,
    methods: Vec<InjectionMethod>,
    next_index: usize,
    mode: InjectionMode,
}

impl InjectionRun {
    pub closed spec fn spec_app_id(&self) -> Seq<char> {
        self.app_id@
    }

    pub closed spec fn spec_methods(&self) -> Seq<InjectionMethod> {
        self.methods@
    }

    /// Position of the next method to consider.
    pub closed spec fn spec_next(&self) -> int {
        self.next_index as int
    }

    pub closed spec fn spec_mode(&self) -> InjectionMode {
        self.mode
    }

    pub closed spec fn wf(&self) -> bool {
        self.next_index <= self.methods@.len()
    }

    /// Application that receives the text.
    pub fn app_id(&self) -> (s: &str)
        ensures
            s@ == self.spec_app_id(),
    {
        self.app_id.as_str()
    }

    /// Paste or type.
    pub fn mode(&self) -> (m: InjectionMode)
        ensures
            m == self.spec_mode(),
    {
        self.mode
    }

    /// The methods in the order they are tried.
    pub fn methods(&self) -> (v: &Vec<InjectionMethod>)
        ensures
            v@ == self.spec_methods(),
    {
        &self.methods
    }

    /// Whether every method has been considered.
    pub fn is_finished(&self) -> (r: bool)
        requires
            self.wf(),
        ensures
            r == (self.spec_next() == self.spec_methods().len()),
    {
        self.next_index == self.methods.len()
    }
}

/// Adaptive strategy manager.
pub struct StrategyManager {
    config: InjectionConfig,
    env: EnvironmentProbe,
    success_cache: KeyedTable<SuccessRecord>,
    cooldowns: KeyedTable<CooldownState>,
    global_start_ms: Option<u64>,
    metrics: InjectionMetrics,
    backend_detector: BackendDetector,
    registered: Vec<InjectionMethod>,
    cached_method_order: Option<(String, Vec<InjectionMethod>)>,
    allowlist_patterns: Vec<String>,
    blocklist_patterns: Vec<String>,
}

impl StrategyManager {
    pub closed spec fn spec_config(&self) -> InjectionConfig {
        self.config
    }

    pub closed spec fn spec_env(&self) -> EnvironmentProbe {
        self.env
    }

    pub closed spec fn spec_metrics(&self) -> InjectionMetrics {
        self.metrics
    }

    pub closed spec fn spec_success(&self) -> Map<RecordKey, SuccessRecord> {
        self.success_cache.view()
    }

    pub closed spec fn spec_cooldowns(&self) -> Map<RecordKey, CooldownState> {
        self.cooldowns.view()
    }

    pub closed spec fn spec_global_start(&self) -> Option<u64> {
        self.global_start_ms
    }

    /// The methods that have an injector.
    pub closed spec fn spec_registered(&self) -> Seq<InjectionMethod> {
        self.registered@
    }

    pub closed spec fn wf(&self) -> bool {
        &&& self.success_cache.wf()
        &&& self.cooldowns.wf()
        &&& self.metrics.wf()
        &&& string_views(self.allowlist_patterns@) == compiling_patterns(string_views(self.config.allowlist@))
        &&& string_views(self.blocklist_patterns@) == compiling_patterns(string_views(self.config.blocklist@))
        &&& (self.cached_method_order matches Some(c) ==> c.1@ == method_order_spec(self.config, self.env))
    }

    /// A manager for `config` in the environment `env`, whose injectors
    /// serve the methods in `registered`. When no backend is preferred in
    /// `env`, the denial is counted in the metrics. Allow and block patterns
    /// that do not compile are skipped.
    pub fn new(
        config: InjectionConfig,
        metrics: InjectionMetrics,
        env: EnvironmentProbe,
        registered: Vec<InjectionMethod>,
    ) -> (m: Self)
        requires
            metrics.wf(),
        ensures
            m.wf(),
            m.spec_config() == config,
            m.spec_env() == env,
            m.spec_registered() == registered@,
            m.spec_success() == Map::<RecordKey, SuccessRecord>::empty(),
            m.spec_cooldowns() == Map::<RecordKey, CooldownState>::empty(),
            m.spec_global_start() is None,
            m.spec_metrics() == (InjectionMetrics {
                backend_denied: if first_available(preferred_order_spec(), available_backends(env)) is None {
                    metrics.backend_denied.saturating_add(1)
                } else {
                    metrics.backend_denied
                },
                ..metrics
            }),
    {
        let backend_detector = BackendDetector::new(config.clone());
        let mut metrics = metrics;
        if backend_detector.get_preferred_backend(&env).is_none() {
            metrics.record_backend_denied();
        }
        let allowlist_patterns = compile_patterns(&config.allowlist);
        let blocklist_patterns = compile_patterns(&config.blocklist);
        StrategyManager {
            config,
            env,
            success_cache: KeyedTable::new(),
            cooldowns: KeyedTable::new(),
            global_start_ms: None,
            metrics,
            backend_detector,
            registered,
            cached_method_order: None,
            allowlist_patterns,
            blocklist_patterns,
        }
    }

    /// Method priority for an application. The base order comes from the
    /// environment and the configuration; success history never reorders it,
    /// because every method occupies its own position in the base order.
    pub fn get_method_priority(&self, app_id: &str) -> (v: Vec<InjectionMethod>)
        ensures
            v@ == method_order_spec(self.spec_config(), self.spec_env()),
    {
        let wl = self.env.is_wayland_any_case();
        let x11 = self.env.is_x11_any_case();
        let mut base_order: Vec<InjectionMethod> = Vec::new();
        if wl {
            base_order.push(InjectionMethod::AtspiInsert);
        }
        if x11 {
            base_order.push(InjectionMethod::AtspiInsert);
        }
        if self.config.allow_kdotool {
            base_order.push(InjectionMethod::KdoToolAssist);
        }
        if self.config.allow_enigo {
            base_order.push(InjectionMethod::EnigoText);
        }
        base_order.push(InjectionMethod::ClipboardPasteFallback);
        let mut order = dedup_methods(&base_order);
        order.push(InjectionMethod::NoOp);
        proof {
            let tail = (if self.config.allow_kdotool { seq![InjectionMethod::KdoToolAssist] } else { seq![] })
                + (if self.config.allow_enigo { seq![InjectionMethod::EnigoText] } else { seq![] })
                + seq![InjectionMethod::ClipboardPasteFallback];
            let single = if wl || x11 { seq![InjectionMethod::AtspiInsert] } else { seq![] };
            assert(base_order@ =~= (if wl { seq![InjectionMethod::AtspiInsert] } else { seq![] })
                + (if x11 { seq![InjectionMethod::AtspiInsert] } else { seq![] }) + tail);
            assert(tail.len() >= 1 && !tail.contains(InjectionMethod::AtspiInsert)) by {
                if tail.contains(InjectionMethod::AtspiInsert) {
                    let k = choose|k: int| 0 <= k < tail.len() && tail[k] == InjectionMethod::AtspiInsert;
                }
            }
            lemma_dedup_double_atspi(wl && x11, single, tail, base_order@);
            assert(single + tail =~= (if on_wayland_any_case(self.env) || on_x11_any_case(self.env) {
                seq![InjectionMethod::AtspiInsert]
            } else {
                seq![]
            }) + (if self.config.allow_kdotool { seq![InjectionMethod::KdoToolAssist] } else { seq![] })
                + (if self.config.allow_enigo { seq![InjectionMethod::EnigoText] } else { seq![] })
                + seq![InjectionMethod::ClipboardPasteFallback]);
        }
        order
    }

    /// The method order for the current environment and configuration.
    fn compute_method_order(&self, app_id: &str) -> (v: Vec<InjectionMethod>)
        ensures
            v@ == method_order_spec(self.spec_config(), self.spec_env()),
    {
        let mut base_order: Vec<InjectionMethod> = Vec::new();
        if self.env.is_wayland_any_case() || self.env.is_x11_any_case() {
            base_order.push(InjectionMethod::AtspiInsert);
        }
        if self.config.allow_kdotool {
            base_order.push(InjectionMethod::KdoToolAssist);
        }
        if self.config.allow_enigo {
            base_order.push(InjectionMethod::EnigoText);
        }
        base_order.push(InjectionMethod::ClipboardPasteFallback);
        let mut order = dedup_methods(&base_order);
        order.push(InjectionMethod::NoOp);
        proof {
            assert(base_order@ =~= (if on_wayland_any_case(self.env) || on_x11_any_case(self.env) {
                seq![InjectionMethod::AtspiInsert]
            } else {
                seq![]
            }) + (if self.config.allow_kdotool { seq![InjectionMethod::KdoToolAssist] } else { seq![] })
                + (if self.config.allow_enigo { seq![InjectionMethod::EnigoText] } else { seq![] })
                + seq![InjectionMethod::ClipboardPasteFallback]);
        }
        order
    }

    /// The method order for `app_id`, reusing the cached order when it was
    /// computed for the same application.
    pub fn get_method_order_cached(&mut self, app_id: &str) -> (v: Vec<InjectionMethod>)
        requires
            old(self).wf(),
        ensures
            final(self).wf(),
            v@ == method_order_spec(old(self).spec_config(), old(self).spec_env()),
            final(self).spec_config() == old(self).spec_config(),
            final(self).spec_env() == old(self).spec_env(),
            final(self).spec_success() == old(self).spec_success(),
            final(self).spec_cooldowns() == old(self).spec_cooldowns(),
            final(self).spec_metrics() == old(self).spec_metrics(),
            final(self).spec_registered() == old(self).spec_registered(),
            final(self).spec_global_start() == old(self).spec_global_start(),
    {
        if let Some((cached_app, cached_order)) = &self.cached_method_order {
            if crate::text::str_eq(cached_app.as_str(), app_id) {
                return cached_order.clone();
            }
        }
        let order = self.compute_method_order(app_id);
        self.cached_method_order = Some((String::from_str(app_id), order.clone()));
        order
    }

    /// The method order without consulting the cache.
    pub fn get_method_order_uncached(&self) -> (v: Vec<InjectionMethod>)
        ensures
            v@ == method_order_spec(self.spec_config(), self.spec_env()),
    {
        self.compute_method_order("unknown_app")
    }

    /// Injection is never paused.
    fn is_paused(&self) -> (r: bool)
        ensures
            !r,
    {
        false
    }

    /// Whether the application may receive text.
    pub fn is_app_allowed(&self, app_id: &str) -> (r: bool)
        requires
            self.wf(),
        ensures
            r == app_allowed_spec(self.spec_config(), app_id@),
    {
        proof {
            lemma_compiling_patterns_compile(string_views(self.config.allowlist@));
            lemma_compiling_patterns_compile(string_views(self.config.blocklist@));
            assert forall|i: int| 0 <= i < self.allowlist_patterns@.len() implies crate::patterns::regex_compiles(
                #[trigger] self.allowlist_patterns@[i]@,
            ) by {
                assert(string_views(self.allowlist_patterns@)[i] == self.allowlist_patterns@[i]@);
            }
            assert forall|i: int| 0 <= i < self.blocklist_patterns@.len() implies crate::patterns::regex_compiles(
                #[trigger] self.blocklist_patterns@[i]@,
            ) by {
                assert(string_views(self.blocklist_patterns@)[i] == self.blocklist_patterns@[i]@);
            }
        }
        if self.config.allowlist.len() > 0 {
            return any_pattern_matches(&self.allowlist_patterns, app_id);
        }
        if self.config.blocklist.len() > 0 {
            return !any_pattern_matches(&self.blocklist_patterns, app_id);
        }
        true
    }

    /// Whether `method` is in a cooldown for the application `app_id` at `now_ms`.
    pub fn is_in_cooldown(&self, app_id: &str, method: InjectionMethod, now_ms: u64) -> (r: bool)
        requires
            self.wf(),
        ensures
            r == cooldown_active(self.spec_cooldowns(), app_id@, method, now_ms),
    {
        match self.cooldowns.get(app_id, method) {
            Some(c) => now_ms < c.until_ms,
            None => false,
        }
    }

    /// Length of the cooldown at backoff level `level`.
    pub fn cooldown_duration_ms(&self, level: u32) -> (ms: u64)
        ensures
            ms == cooldown_ms_for(self.spec_config(), level as nat),
    {
        scaled_backoff(
            self.config.cooldown_initial_ms,
            self.config.cooldown_backoff_factor_permille,
            level,
            self.config.cooldown_max_ms,
        )
    }

    /// Applies the next exponential cooldown to (`app_id`, `method`): the
    /// cooldown runs from `now_ms` for the length of the current backoff
    /// level, the level goes up by one, and the error is remembered.
    pub fn apply_cooldown(&mut self, app_id: &str, method: InjectionMethod, error: &str, now_ms: u64)
        requires
            old(self).wf(),
        ensures
            final(self).wf(),
            cooldown_applied(
                old(self).spec_config(),
                old(self).spec_cooldowns(),
                final(self).spec_cooldowns(),
                (app_id@, method),
                now_ms,
                error@,
            ),
            final(self).spec_config() == old(self).spec_config(),
            final(self).spec_env() == old(self).spec_env(),
            final(self).spec_success() == old(self).spec_success(),
            final(self).spec_metrics() == old(self).spec_metrics(),
            final(self).spec_registered() == old(self).spec_registered(),
            final(self).spec_global_start() == old(self).spec_global_start(),
    {
        let level = match self.cooldowns.get(app_id, method) {
            Some(c) => c.backoff_level,
            None => 0,
        };
        let cooldown_ms = self.cooldown_duration_ms(level);
        let state = CooldownState {
            until_ms: now_ms.saturating_add(cooldown_ms),
            backoff_level: level.saturating_add(1),
            last_error: String::from_str(error),
        };
        self.cooldowns.set(app_id, method, state);
    }

    /// Same as `apply_cooldown`: a failure extends the cooldown.
    pub fn update_cooldown(&mut self, app_id: &str, method: InjectionMethod, error: &str, now_ms: u64)
        requires
            old(self).wf(),
        ensures
            final(self).wf(),
            cooldown_applied(
                old(self).spec_config(),
                old(self).spec_cooldowns(),
                final(self).spec_cooldowns(),
                (app_id@, method),
                now_ms,
                error@,
            ),
            final(self).spec_config() == old(self).spec_config(),
            final(self).spec_env() == old(self).spec_env(),
            final(self).spec_success() == old(self).spec_success(),
            final(self).spec_metrics() == old(self).spec_metrics(),
            final(self).spec_registered() == old(self).spec_registered(),
            final(self).spec_global_start() == old(self).spec_global_start(),
    {
        self.apply_cooldown(app_id, method, error, now_ms);
    }

    /// Lifts the cooldown of (`app_id`, `method`).
    pub fn clear_cooldown(&mut self, app_id: &str, method: InjectionMethod)
        requires
            old(self).wf(),
        ensures
            final(self).wf(),
            final(self).spec_cooldowns() == old(self).spec_cooldowns().remove((app_id@, method)),
            final(self).spec_config() == old(self).spec_config(),
            final(self).spec_env() == old(self).spec_env(),
            final(self).spec_success() == old(self).spec_success(),
            final(self).spec_metrics() == old(self).spec_metrics(),
            final(self).spec_registered() == old(self).spec_registered(),
            final(self).spec_global_start() == old(self).spec_global_start(),
    {
        self.cooldowns.remove(app_id, method);
    }

    /// Records one outcome of `method` for `app_id`. A failure that brings
    /// the failure count above two also applies a cooldown.
    pub fn update_success_record(&mut self, app_id: &str, method: InjectionMethod, success: bool, now_ms: u64)
        requires
            old(self).wf(),
        ensures
            final(self).wf(),
            ({
                let k = (app_id@, method);
                &&& final(self).spec_success() == old(self).spec_success().insert(
                    k,
                    record_after(record_at(old(self).spec_success(), k), success, now_ms),
                )
                &&& if !success && failure_triggers_cooldown(old(self).spec_success(), k, now_ms) {
                    cooldown_applied(
                        old(self).spec_config(),
                        old(self).spec_cooldowns(),
                        final(self).spec_cooldowns(),
                        k,
                        now_ms,
                        "Multiple consecutive failures"@,
                    )
                } else {
                    final(self).spec_cooldowns() == old(self).spec_cooldowns()
                }
            }),
            final(self).spec_config() == old(self).spec_config(),
            final(self).spec_env() == old(self).spec_env(),
            final(self).spec_metrics() == old(self).spec_metrics(),
            final(self).spec_registered() == old(self).spec_registered(),
            final(self).spec_global_start() == old(self).spec_global_start(),
    {
        let prev = match self.success_cache.get(app_id, method) {
            Some(r) => *r,
            None => SuccessRecord {
                success_count: 0,
                fail_count: 0,
                last_success_ms: None,
                last_failure_ms: None,
            },
        };
        let rec = if success {
            SuccessRecord {
                success_count: prev.success_count.saturating_add(1),
                last_success_ms: Some(now_ms),
                ..prev
            }
        } else {
            SuccessRecord {
                fail_count: prev.fail_count.saturating_add(1),
                last_failure_ms: Some(now_ms),
                ..prev
            }
        };
        self.success_cache.set(app_id, method, rec);
        if !success && rec.fail_count > 2 {
            self.apply_cooldown(app_id, method, "Multiple consecutive failures", now_ms);
        }
    }

    /// Whether the latency budget of the current injection has time left at `now_ms`.
    pub fn has_budget_remaining(&self, now_ms: u64) -> (r: bool)
        ensures
            r == budget_remaining_spec(self.spec_global_start(), self.spec_config().max_total_latency_ms, now_ms),
    {
        match self.global_start_ms {
            Some(start) => now_ms.saturating_sub(start) < self.config.max_total_latency_ms,
            None => true,
        }
    }

    /// Starts the latency budget at `start_ms`.
    pub fn set_global_start(&mut self, start_ms: u64)
        requires
            old(self).wf(),
        ensures
            final(self).wf(),
            final(self).spec_global_start() == Some(start_ms),
            final(self).spec_config() == old(self).spec_config(),
            final(self).spec_env() == old(self).spec_env(),
            final(self).spec_success() == old(self).spec_success(),
            final(self).spec_cooldowns() == old(self).spec_cooldowns(),
            final(self).spec_metrics() == old(self).spec_metrics(),
            final(self).spec_registered() == old(self).spec_registered(),
    {
        self.global_start_ms = Some(start_ms);
    }

    /// First decisions of an injection of `text` at `now_ms`. An empty text
    /// is done at once. Otherwise the latency budget starts now, and a
    /// budget of at most one millisecond refuses the injection (counted as
    /// rate limited). `None`: the injection goes on.
    pub fn begin_injection(&mut self, text: &str, now_ms: u64) -> (r: Option<InjectionResult<()>>)
        requires
            old(self).wf(),
        ensures
            final(self).wf(),
            same_policy_state(*old(self), *final(self)),
            text@.len() == 0 ==> r == Some(Ok::<(), InjectionError>(())) && *final(self) == *old(self),
            text@.len() > 0 ==> {
                &&& final(self).spec_global_start() == Some(now_ms)
                &&& if old(self).spec_config().max_total_latency_ms <= 1 {
                    &&& r == Some(Err::<(), InjectionError>(InjectionError::BudgetExhausted))
                    &&& final(self).spec_metrics() == (InjectionMetrics {
                        rate_limited: old(self).spec_metrics().rate_limited.saturating_add(1),
                        ..old(self).spec_metrics()
                    })
                } else {
                    &&& r is None
                    &&& final(self).spec_metrics() == old(self).spec_metrics()
                }
            },
    {
        if text.is_empty() {
            return Some(Ok(()));
        }
        if self.is_paused() {
            return Some(Err(InjectionError::Other(String::from_str("Injection is currently paused"))));
        }
        self.global_start_ms = Some(now_ms);
        if self.config.max_total_latency_ms <= 1 {
            self.metrics.record_rate_limited();
            return Some(Err(InjectionError::BudgetExhausted));
        }
        None
    }

    /// Focus gate of an injection, given what the focus query answered (a
    /// failed query counts as unknown focus). Unknown focus is refused unless
    /// the configuration allows it; a non-editable focus is refused when
    /// focus is required. Each refusal is counted as missing focus.
    pub fn check_focus(&mut self, query: Result<FocusStatus, InjectionError>) -> (r: InjectionResult<()>)
        requires
            old(self).wf(),
        ensures
            final(self).wf(),
            same_policy_state(*old(self), *final(self)),
            final(self).spec_global_start() == old(self).spec_global_start(),
            ({
                let status = status_of_query(query);
                let config = old(self).spec_config();
                let refused_unknown = status == FocusStatus::Unknown && !config.inject_on_unknown_focus;
                let refused_noneditable = config.require_focus && status == FocusStatus::NonEditable;
                &&& refused_unknown ==> (r matches Err(InjectionError::Other(msg))
                    && msg@ == "Unknown focus state and injection disabled"@)
                &&& (!refused_unknown && refused_noneditable) ==> r == Err::<(), InjectionError>(
                    InjectionError::NoEditableFocus,
                )
                &&& (!refused_unknown && !refused_noneditable) ==> r == Ok::<(), InjectionError>(())
                &&& final(self).spec_metrics() == if refused_unknown || refused_noneditable {
                    InjectionMetrics {
                        focus_missing: old(self).spec_metrics().focus_missing.saturating_add(1),
                        ..old(self).spec_metrics()
                    }
                } else {
                    old(self).spec_metrics()
                }
            }),
    {
        let status = match query {
            Ok(s) => s,
            Err(_) => FocusStatus::Unknown,
        };
        if status == FocusStatus::Unknown && !self.config.inject_on_unknown_focus {
            self.metrics.record_focus_missing();
            return Err(InjectionError::Other(String::from_str("Unknown focus state and injection disabled")));
        }
        if self.config.require_focus && status == FocusStatus::NonEditable {
            self.metrics.record_focus_missing();
            return Err(InjectionError::NoEditableFocus);
        }
        Ok(())
    }

    /// Plans the injection of `text` into `app_id`: refuses an application
    /// that the allow and block lists exclude, chooses paste or keystroke
    /// mode, and takes the (cached) method order.
    pub fn start_run(&mut self, text: &str, app_id: &str) -> (r: InjectionResult<InjectionRun>)
        requires
            old(self).wf(),
        ensures
            final(self).wf(),
            same_policy_state(*old(self), *final(self)),
            final(self).spec_global_start() == old(self).spec_global_start(),
            final(self).spec_metrics() == old(self).spec_metrics(),
            !app_allowed_spec(old(self).spec_config(), app_id@) ==> (r matches Err(InjectionError::Other(msg))
                && msg@ == "Application "@ + app_id@ + " is not allowed for injection"@),
            app_allowed_spec(old(self).spec_config(), app_id@) ==> (r matches Ok(run) && {
                &&& run.wf()
                &&& run.spec_app_id() == app_id@
                &&& run.spec_methods() == method_order_spec(old(self).spec_config(), old(self).spec_env())
                &&& run.spec_next() == 0
                &&& run.spec_mode() == effective_mode(
                    old(self).spec_config().injection_mode@,
                    text.len() as nat,
                    old(self).spec_config().paste_chunk_chars,
                )
            }),
    {
        if !self.is_app_allowed(app_id) {
            let msg = String::from_str("Application ").concat(app_id).concat(" is not allowed for injection");
            return Err(InjectionError::Other(msg));
        }
        let mode = choose_injection_mode(&self.config, text.len());
        let methods = self.get_method_order_cached(app_id);
        Ok(InjectionRun { app_id: String::from_str(app_id), methods, next_index: 0, mode })
    }

    /// The next step of `run` at `now_ms`. Methods in a cooldown are
    /// skipped; at the first method outside every cooldown a spent latency
    /// budget ends the injection (counted as rate limited); methods without
    /// an injector are skipped; the first usable method is attempted. When
    /// no method is left, the injection fails, or the process is to exit
    /// when fail-fast is configured.
    pub fn next_step(&mut self, run: &mut InjectionRun, now_ms: u64) -> (step: InjectionStep)
        requires
            old(self).wf(),
            old(run).wf(),
        ensures
            final(self).wf(),
            final(run).wf(),
            same_policy_state(*old(self), *final(self)),
            final(self).spec_global_start() == old(self).spec_global_start(),
            final(run).spec_app_id() == old(run).spec_app_id(),
            final(run).spec_methods() == old(run).spec_methods(),
            final(run).spec_mode() == old(run).spec_mode(),
            step is Attempt ==> old(run).spec_next() < final(run).spec_next(),
            ({
                let ms = old(run).spec_methods();
                let cool = old(self).spec_cooldowns();
                let app = old(run).spec_app_id();
                let j = next_outside_cooldown(ms, old(run).spec_next(), cool, app, now_ms);
                let k = next_usable(ms, old(run).spec_next(), cool, app, old(self).spec_registered(), now_ms);
                let budget = budget_remaining_spec(
                    old(self).spec_global_start(),
                    old(self).spec_config().max_total_latency_ms,
                    now_ms,
                );
                if j < ms.len() && !budget {
                    &&& step == InjectionStep::Finished(Err(InjectionError::BudgetExhausted))
                    &&& final(run).spec_next() == ms.len()
                    &&& final(self).spec_metrics() == (InjectionMetrics {
                        rate_limited: old(self).spec_metrics().rate_limited.saturating_add(1),
                        ..old(self).spec_metrics()
                    })
                } else if k < ms.len() {
                    &&& step == InjectionStep::Attempt(ms[k])
                    &&& final(run).spec_next() == k + 1
                    &&& final(self).spec_metrics() == old(self).spec_metrics()
                } else {
                    &&& final(run).spec_next() == ms.len()
                    &&& final(self).spec_metrics() == old(self).spec_metrics()
                    &&& if old(self).spec_config().fail_fast {
                        step is AbortProcess
                    } else {
                        step matches InjectionStep::Finished(Err(InjectionError::MethodFailed(msg)))
                            && msg@ == "All injection methods failed"@
                    }
                }
            }),
    {
        let ghost ms = run.methods@;
        let ghost i0 = run.next_index as int;
        let ghost cool = self.spec_cooldowns();
        let ghost reg = self.registered@;
        let ghost app = run.app_id@;
        proof {
            lemma_next_usable_sound(ms, i0, cool, app, reg, now_ms);
        }
        let ghost budget = budget_remaining_spec(self.global_start_ms, self.config.max_total_latency_ms, now_ms);
        let n = run.methods.len();
        let mut i = run.next_index;
        while i < n
            invariant
                self.wf(),
                *self == *old(self),
                *run == *old(run),
                i0 == run.next_index as int,
                n == ms.len(),
                ms == run.methods@,
                i0 <= i <= n,
                cool == self.spec_cooldowns(),
                reg == self.registered@,
                budget == budget_remaining_spec(self.global_start_ms, self.config.max_total_latency_ms, now_ms),
                app == run.app_id@,
                next_usable(ms, i0, cool, app, reg, now_ms) == next_usable(ms, i as int, cool, app, reg, now_ms),
                next_outside_cooldown(ms, i0, cool, app, now_ms) == next_outside_cooldown(ms, i as int, cool, app, now_ms)
                    || (budget && next_outside_cooldown(ms, i0, cool, app, now_ms) < ms.len()),
            decreases n - i,
        {
            let m = run.methods[i];
            if self.is_in_cooldown(run.app_id.as_str(), m, now_ms) {
                i += 1;
            } else {
                proof {
                    assert(next_outside_cooldown(ms, i as int, cool, app, now_ms) == i as int);
                }
                if !self.has_budget_remaining(now_ms) {
                    self.metrics.record_rate_limited();
                    run.next_index = n;
                    return InjectionStep::Finished(Err(InjectionError::BudgetExhausted));
                }
                if contains_method(&self.registered, m) {
                    proof {
                        assert(method_usable(cool, app, reg, ms[i as int], now_ms));
                        assert(next_usable(ms, i as int, cool, app, reg, now_ms) == i as int);
                    }
                    run.next_index = i + 1;
                    return InjectionStep::Attempt(m);
                }
                i += 1;
            }
        }
        run.next_index = n;
        if self.config.fail_fast {
            InjectionStep::AbortProcess
        } else {
            InjectionStep::Finished(Err(InjectionError::MethodFailed(String::from_str("All injection methods failed"))))
        }
    }

    /// Records the outcome of attempting `method` in `run`, which took
    /// `duration_ms` and ended at `now_ms`. A success is counted, raises the
    /// success record, lifts the cooldown and ends the injection
    /// (`Some(Ok(()))`). A failure is counted with the error's message,
    /// lowers the success record (which may apply a cooldown) and applies a
    /// cooldown for the error; the injection goes on (`None`).
    #[verifier::spinoff_prover]
    pub fn record_outcome(
        &mut self,
        run: &InjectionRun,
        method: InjectionMethod,
        outcome: &InjectionResult<()>,
        duration_ms: u64,
        now_ms: u64,
    ) -> (r: Option<InjectionResult<()>>)
        requires
            old(self).wf(),
        ensures
            final(self).wf(),
            final(self).spec_config() == old(self).spec_config(),
            final(self).spec_env() == old(self).spec_env(),
            final(self).spec_registered() == old(self).spec_registered(),
            final(self).spec_global_start() == old(self).spec_global_start(),
            ({
                let k = (run.spec_app_id(), method);
                let pre = old(self).spec_metrics();
                let post = final(self).spec_metrics();
                let success = outcome is Ok;
                &&& final(self).spec_success() == old(self).spec_success().insert(
                    k,
                    record_after(record_at(old(self).spec_success(), k), success, now_ms),
                )
                &&& post.attempts == pre.attempts.saturating_add(1)
                &&& crate::types::outcome_recorded(pre, post, success)
                &&& post == (InjectionMetrics {
                    attempts: post.attempts,
                    successes: post.successes,
                    failures: post.failures,
                    method_metrics: post.method_metrics,
                    ..pre
                })
                &&& match *outcome {
                    Ok(_) => {
                        &&& r == Some(Ok::<(), InjectionError>(()))
                        &&& post.successes == pre.successes.saturating_add(1)
                        &&& post.failures == pre.failures
                        &&& method_stats_after(pre.method_metrics@, post.method_metrics@, method, true, duration_ms, None)
                        &&& final(self).spec_cooldowns() == old(self).spec_cooldowns().remove(k)
                    },
                    Err(e) => {
                        &&& r is None
                        &&& post.successes == pre.successes
                        &&& post.failures == pre.failures.saturating_add(1)
                        &&& post.method_metrics@.len() == pre.method_metrics@.len()
                            + (if crate::types::method_entry_index(pre.method_metrics@, method) is Some { 0int } else { 1int })
                        &&& exists|msg: String| msg@ == error_message(e) && method_stats_after(
                            pre.method_metrics@,
                            post.method_metrics@,
                            method,
                            false,
                            duration_ms,
                            Some(msg),
                        )
                        &&& {
                            let level0 = cooldown_level(old(self).spec_cooldowns(), k);
                            let level1 = if failure_triggers_cooldown(old(self).spec_success(), k, now_ms) {
                                level0.saturating_add(1)
                            } else {
                                level0
                            };
                            cooldown_set(
                                old(self).spec_cooldowns(),
                                final(self).spec_cooldowns(),
                                k,
                                now_ms.saturating_add(cooldown_ms_for(old(self).spec_config(), level1 as nat)),
                                level1.saturating_add(1),
                                error_message(e),
                            )
                        }
                    },
                }
            }),
    {
        let app_id = run.app_id.as_str();
        match outcome {
            Ok(()) => {
                self.metrics.record_success(method, duration_ms);
                self.update_success_record(app_id, method, true, now_ms);
                self.clear_cooldown(app_id, method);
                Some(Ok(()))
            },
            Err(e) => {
                let msg = e.message();
                let ghost c0 = self.spec_cooldowns();
                self.metrics.record_failure(method, duration_ms, msg.clone());
                self.update_success_record(app_id, method, false, now_ms);
                let ghost c1 = self.spec_cooldowns();
                self.update_cooldown(app_id, method, msg.as_str(), now_ms);
                proof {
                    let k = (app_id@, method);
                    let c2 = self.spec_cooldowns();
                    assert(same_except(c0, c1, k));
                    assert forall|q: RecordKey| q != k implies (#[trigger] c2.contains_key(q) == c0.contains_key(q)
                        && (c0.contains_key(q) ==> c2[q] == c0[q])) by {
                        assert(c1.contains_key(q) == c0.contains_key(q));
                        assert(c2.contains_key(q) == c1.contains_key(q));
                    }
                }
                None
            },
        }
    }

    /// The success record of (`app_id`, `method`), if any.
    pub fn success_record(&self, app_id: &str, method: InjectionMethod) -> (r: Option<SuccessRecord>)
        requires
            self.wf(),
        ensures
            r is Some == self.spec_success().contains_key((app_id@, method)),
            r matches Some(rec) ==> rec == self.spec_success()[(app_id@, method)],
    {
        match self.success_cache.get(app_id, method) {
            Some(r) => Some(*r),
            None => None,
        }
    }

    /// The cooldown of (`app_id`, `method`), if any.
    pub fn cooldown_state(&self, app_id: &str, method: InjectionMethod) -> (r: Option<&CooldownState>)
        requires
            self.wf(),
        ensures
            r is Some == self.spec_cooldowns().contains_key((app_id@, method)),
            r matches Some(c) ==> *c == self.spec_cooldowns()[(app_id@, method)],
    {
        self.cooldowns.get(app_id, method)
    }

    /// The manager's telemetry counters.
    pub fn metrics(&self) -> (m: &InjectionMetrics)
        ensures
            *m == self.spec_metrics(),
    {
        &self.metrics
    }
}

/// Where a chunk that starts at byte `start` ends: `chunk_size` bytes on
/// (at most the text's end), moved forward to the next character boundary.
pub open spec fn chunk_end_spec(bytes: Seq<u8>, start: int, chunk_size: int, end: int) -> bool {
    let e0 = if start + chunk_size < bytes.len() { start + chunk_size } else { bytes.len() as int };
    &&& e0 <= end <= bytes.len()
    &&& (end == bytes.len() || is_char_boundary(bytes, end))
    &&& forall|k: int| e0 <= k < end ==> !is_char_boundary(bytes, k)
}

/// The end of the paste chunk or typing burst that starts at `start`.
pub fn next_chunk_end(text: &str, start: usize, chunk_size: usize) -> (end: usize)
    requires
        text.spec_bytes().len() <= usize::MAX,
        start <= text.spec_bytes().len(),
    ensures
        chunk_end_spec(text.spec_bytes(), start as int, chunk_size as int, end as int),
{
    let len = text.len();
    let mut end = if chunk_size <= len - start {
        start + chunk_size
    } else {
        len
    };
    let ghost e0 = end as int;
    while end < len && !text.is_char_boundary(end)
        invariant
            len == text.spec_bytes().len(),
            e0 <= end <= len,
            e0 == (if start + chunk_size < len { start + chunk_size } else { len as int }),
            forall|k: int| e0 <= k < end ==> !is_char_boundary(text.spec_bytes(), k),
        decreases len - end,
    {
        end += 1;
    }
    end
}

/// The configuration, environment, injectors and per-application records
/// are the same in `a` and `b`.
pub open spec fn same_policy_state(a: StrategyManager, b: StrategyManager) -> bool {
    &&& a.spec_config() == b.spec_config()
    &&& a.spec_env() == b.spec_env()
    &&& a.spec_registered() == b.spec_registered()
    &&& a.spec_success() == b.spec_success()
    &&& a.spec_cooldowns() == b.spec_cooldowns()
}

/// Whether a latency budget started at `start` has time left at `now`.
pub open spec fn budget_remaining_spec(start: Option<u64>, max_ms: u64, now: u64) -> bool {
    match start {
        Some(s) => now.saturating_sub(s) < max_ms,
        None => true,
    }
}

/// The method order never repeats a method and always ends with `NoOp`; it
/// holds AT-SPI exactly on a Wayland or X11 session, kdotool and enigo
/// exactly when the configuration allows them, and always the unified
/// clipboard paste.
pub proof fn lemma_method_order_contents(config: InjectionConfig, env: EnvironmentProbe)
    ensures
        ({
            let order = method_order_spec(config, env);
            &&& no_duplicates(order)
            &&& order.len() > 0
            &&& order.last() == InjectionMethod::NoOp
            &&& order.contains(InjectionMethod::ClipboardPasteFallback)
            &&& order.contains(InjectionMethod::AtspiInsert) == (on_wayland_any_case(env) || on_x11_any_case(env))
            &&& order.contains(InjectionMethod::KdoToolAssist) == config.allow_kdotool
            &&& order.contains(InjectionMethod::EnigoText) == config.allow_enigo
            &&& !order.contains(InjectionMethod::YdoToolPaste)
            &&& !order.contains(InjectionMethod::Clipboard)
            &&& !order.contains(InjectionMethod::ClipboardAndPaste)
        }),
{
    let base = (if on_wayland_any_case(env) || on_x11_any_case(env) { seq![InjectionMethod::AtspiInsert] } else { seq![] })
        + (if config.allow_kdotool { seq![InjectionMethod::KdoToolAssist] } else { seq![] })
        + (if config.allow_enigo { seq![InjectionMethod::EnigoText] } else { seq![] })
        + seq![InjectionMethod::ClipboardPasteFallback];
    lemma_dedup(base);
    let d = dedup(base);
    let order = d.push(InjectionMethod::NoOp);
    assert forall|m: InjectionMethod| #[trigger] base.contains(m) <==> (
        (m == InjectionMethod::AtspiInsert && (on_wayland_any_case(env) || on_x11_any_case(env)))
        || (m == InjectionMethod::KdoToolAssist && config.allow_kdotool)
        || (m == InjectionMethod::EnigoText && config.allow_enigo)
        || m == InjectionMethod::ClipboardPasteFallback) by {
        if base.contains(m) {
            let k = choose|k: int| 0 <= k < base.len() && base[k] == m;
        }
        if m == InjectionMethod::ClipboardPasteFallback {
            assert(base[base.len() - 1] == m);
        }
        if m == InjectionMethod::AtspiInsert && (on_wayland_any_case(env) || on_x11_any_case(env)) {
            assert(base[0] == m);
        }
        let a = if on_wayland_any_case(env) || on_x11_any_case(env) { 1int } else { 0int };
        if m == InjectionMethod::KdoToolAssist && config.allow_kdotool {
            assert(base[a] == m);
        }
        let b = a + if config.allow_kdotool { 1int } else { 0int };
        if m == InjectionMethod::EnigoText && config.allow_enigo {
            assert(base[b] == m);
        }
    }
    assert forall|m: InjectionMethod| #[trigger] order.contains(m) <==> (d.contains(m) || m == InjectionMethod::NoOp) by {
        if d.contains(m) {
            let k = choose|k: int| 0 <= k < d.len() && d[k] == m;
            assert(order[k] == m);
        }
        if m == InjectionMethod::NoOp {
            assert(order[d.len() as int] == m);
        }
        if order.contains(m) {
            let k = choose|k: int| 0 <= k < order.len() && order[k] == m;
            if k < d.len() {
                assert(d[k] == m);
            }
        }
    }
    assert(!d.contains(InjectionMethod::NoOp));
    assert(no_duplicates(order)) by {
        assert forall|i: int, j: int| 0 <= i < j < order.len() implies order[i] != order[j] by {
            if j == order.len() - 1 {
                assert(d[i] == order[i]);
                assert(d.contains(d[i]));
            } else {
                assert(d[i] == order[i] && d[j] == order[j]);
            }
        }
    }
    assert(order.contains(InjectionMethod::ClipboardPasteFallback));
    assert(order.contains(InjectionMethod::AtspiInsert) == (on_wayland_any_case(env) || on_x11_any_case(env)));
    assert(order.contains(InjectionMethod::KdoToolAssist) == config.allow_kdotool);
    assert(order.contains(InjectionMethod::EnigoText) == config.allow_enigo);
    assert(!order.contains(InjectionMethod::YdoToolPaste));
    assert(!order.contains(InjectionMethod::Clipboard));
    assert(!order.contains(InjectionMethod::ClipboardAndPaste));
}

/// With a backoff factor of at least one, cooldowns never get shorter as
/// the backoff level rises, and never exceed the configured maximum.
pub proof fn lemma_cooldown_monotone(config: InjectionConfig, l1: nat, l2: nat)
    requires
        config.cooldown_backoff_factor_permille >= 1000,
        l1 <= l2,
    ensures
        cooldown_ms_for(config, l1) <= cooldown_ms_for(config, l2),
        cooldown_ms_for(config, l2) <= config.cooldown_max_ms,
    decreases l2,
{
    lemma_backoff_exact_step(config.cooldown_initial_ms, config.cooldown_backoff_factor_permille, l2);
    if l1 < l2 {
        lemma_cooldown_monotone(config, l1, (l2 - 1) as nat);
        lemma_backoff_exact_step(config.cooldown_initial_ms, config.cooldown_backoff_factor_permille, (l2 - 1) as nat);
    }
}

/// The fallback chain: the method that an injection step for the
/// application `app` attempts, found by searching from position `i`, has an
/// injector and is outside that application's cooldown, and every method
/// passed over on the way lacks one of the two.
pub proof fn lemma_next_usable_sound(
    methods: Seq<InjectionMethod>,
    i: int,
    cool: Map<RecordKey, CooldownState>,
    app: Seq<char>,
    registered: Seq<InjectionMethod>,
    now: u64,
)
    requires
        0 <= i <= methods.len(),
    ensures
        ({
            let k = next_usable(methods, i, cool, app, registered, now);
            &&& i <= k <= methods.len()
            &&& k < methods.len() ==> method_usable(cool, app, registered, methods[k], now)
            &&& forall|j: int| i <= j < k ==> !method_usable(cool, app, registered, #[trigger] methods[j], now)
        }),
    decreases methods.len() - i,
{
    if i < methods.len() && !method_usable(cool, app, registered, methods[i], now) {
        lemma_next_usable_sound(methods, i + 1, cool, app, registered, now);
        let k = next_usable(methods, i + 1, cool, app, registered, now);
        assert forall|j: int| i <= j < k implies !method_usable(cool, app, registered, #[trigger] methods[j], now) by {
            if j > i {
                assert(i + 1 <= j < k);
            }
        }
    }
}

/// Within one injection no method is attempted twice: a run's methods are
/// the method order, which never repeats a method, and every attempt is at
/// a later position than the one before (`next_step`).
pub proof fn lemma_no_method_attempted_twice(config: InjectionConfig, env: EnvironmentProbe, k1: int, k2: int)
    requires
        0 <= k1 < k2 < method_order_spec(config, env).len(),
    ensures
        method_order_spec(config, env)[k1] != method_order_spec(config, env)[k2],
{
    lemma_method_order_contents(config, env);
}

/// A failure puts its method into a cooldown: once the cooldown of the
/// pair `k` is set to last from `now` for a positive length (as every
/// failed attempt sets it), the method is in a cooldown for that pair's
/// application at `now`.
pub proof fn lemma_failure_cools_down(
    config: InjectionConfig,
    pre: Map<RecordKey, CooldownState>,
    post: Map<RecordKey, CooldownState>,
    k: RecordKey,
    now: u64,
    level: nat,
    backoff: u32,
    error: Seq<char>,
)
    requires
        cooldown_set(pre, post, k, now.saturating_add(cooldown_ms_for(config, level)), backoff, error),
        cooldown_ms_for(config, level) > 0,
        now < u64::MAX,
    ensures
        cooldown_active(post, k.0, k.1, now),
{
}

/// A success lifts the cooldown of its application-method pair: the pair
/// has no cooldown any more (its backoff starts again at zero), and the
/// method is no longer in a cooldown for that application; the cooldowns of
/// other applications are untouched.
pub proof fn lemma_success_lifts_cooldown(cool: Map<RecordKey, CooldownState>, k: RecordKey, now: u64)
    ensures
        !cool.remove(k).contains_key(k),
        cooldown_level(cool.remove(k), k) == 0,
        !cooldown_active(cool.remove(k), k.0, k.1, now),
        forall|app: Seq<char>| app != k.0 ==> cooldown_active(cool.remove(k), app, k.1, now) == #[trigger] cooldown_active(
            cool,
            app,
            k.1,
            now,
        ),
{
}

/// Chunking always moves on: a chunk of positive size that starts inside
/// the text ends after its start, on a character boundary or at the end.
pub proof fn lemma_chunk_progress(bytes: Seq<u8>, start: int, chunk_size: int, end: int)
    requires
        chunk_end_spec(bytes, start, chunk_size, end),
        0 <= start < bytes.len(),
        chunk_size > 0,
    ensures
        start < end <= bytes.len(),
        end == bytes.len() || is_char_boundary(bytes, end),
{
}

/// Removing repeated methods from a base order that starts with AT-SPI once
/// or twice gives the same order as starting with it once.
proof fn lemma_dedup_double_atspi(
    double: bool,
    single: Seq<InjectionMethod>,
    tail: Seq<InjectionMethod>,
    base: Seq<InjectionMethod>,
)
    requires
        !tail.contains(InjectionMethod::AtspiInsert),
        single.len() <= 1,
        single.len() == 1 ==> single[0] == InjectionMethod::AtspiInsert,
        double ==> single.len() == 1,
        base == (if double { single + single } else { single }) + tail,
    ensures
        dedup(base) == dedup(single + tail),
{
    if double {
        let a = seq![InjectionMethod::AtspiInsert];
        assert(single =~= a);
        lemma_dedup_prefix_repeat(tail);
        assert(base =~= seq![InjectionMethod::AtspiInsert, InjectionMethod::AtspiInsert] + tail);
        assert(single + tail =~= seq![InjectionMethod::AtspiInsert] + tail);
    }
}

/// A repeated leading AT-SPI entry disappears under deduplication.
proof fn lemma_dedup_prefix_repeat(tail: Seq<InjectionMethod>)
    ensures
        dedup(seq![InjectionMethod::AtspiInsert, InjectionMethod::AtspiInsert] + tail) == dedup(
            seq![InjectionMethod::AtspiInsert] + tail,
        ),
    decreases tail.len(),
{
    let a2 = seq![InjectionMethod::AtspiInsert, InjectionMethod::AtspiInsert];
    let a1 = seq![InjectionMethod::AtspiInsert];
    if tail.len() == 0 {
        assert(a2 + tail =~= a2);
        assert(a1 + tail =~= a1);
        assert(a2.drop_last() =~= a1);
        assert(a1.drop_last() =~= Seq::<InjectionMethod>::empty());
        assert(dedup(Seq::<InjectionMethod>::empty()) =~= Seq::<InjectionMethod>::empty());
        assert(!Seq::<InjectionMethod>::empty().contains(InjectionMethod::AtspiInsert));
        assert(dedup(a1) =~= a1);
        assert(dedup(a1).contains(InjectionMethod::AtspiInsert)) by {
            assert(dedup(a1)[0] == InjectionMethod::AtspiInsert);
        }
    } else {
        lemma_dedup_prefix_repeat(tail.drop_last());
        assert((a2 + tail).drop_last() =~= a2 + tail.drop_last());
        assert((a1 + tail).drop_last() =~= a1 + tail.drop_last());
        assert((a2 + tail).last() == tail.last());
        assert((a1 + tail).last() == tail.last());
    }
}

} // verus!
