//! Backward compatibility: the legacy configuration formats, their
//! migration to the current format, format detection, and a memory of
//! legacy configurations, migrations and compatibility rules.

use crate::logging::LoggingConfig;
use crate::text::{seq_contains, str_contains, str_eq};
use crate::types::InjectionConfig;
use vstd::prelude::*;
use vstd::string::StringExecFns;

verus! {

#[verifier::external_type_specification]
#[verifier::external_body]
pub struct ExJsonValue(serde_json::Value);

/// `chrono::Utc::now()` as milliseconds since the Unix epoch. The clock's
/// reading is not promised.
#[verifier::external_body]
fn utc_now_millis() -> i64 {
    chrono::Utc::now().timestamp_millis()
}

/// Errors of the compatibility layer.
#[derive(Debug, Clone, PartialEq, Eq)]
pub enum CompatError {
    /// The configuration matches no known format.
    UnknownFormat,
    /// A version that has no migration.
    UnsupportedVersion(String),
    /// A configuration that does not deserialize.
    Parse(String),
}

/// Legacy configuration format, version 1.
#[derive(Debug, Clone)]
pub struct LegacyConfigV1 {
    pub enabled_methods: Vec<String>,
    pub timeout_ms: u64,
    pub require_focus: bool,
    pub allowlist: Vec<String>,
    pub blocklist: Vec<String>,
}

/// Legacy configuration format, version 2.
#[derive(Debug, Clone)]
pub struct LegacyConfigV2 {
    /// Method configurations by method name (each name once).
    pub methods: Vec<(String, LegacyMethodConfig)>,
    pub global_timeout_ms: u64,
    pub focus_config: LegacyFocusConfig,
    pub app_filter: LegacyAppFilter,
    pub performance: LegacyPerformanceConfig,
}

/// Legacy configuration of one method.
#[derive(Debug, Clone)]
pub struct LegacyMethodConfig {
    pub enabled: bool,
    pub timeout_ms: Option<u64>,
    pub priority: i32,
    /// Additional parameters by name.
    pub params: Vec<(String, serde_json::Value)>,
}

/// Legacy focus configuration.
#[derive(Debug, Clone)]
pub struct LegacyFocusConfig {
    pub require_focus: bool,
    pub inject_on_unknown_focus: bool,
    pub check_interval_ms: u64,
}

/// Legacy application filter.
#[derive(Debug, Clone)]
pub struct LegacyAppFilter {
    pub allowlist: Vec<String>,
    pub blocklist: Vec<String>,
    pub use_regex: bool,
}

/// Legacy performance configuration.
#[derive(Debug, Clone)]
pub struct LegacyPerformanceConfig {
    pub max_retries: u32,
    pub retry_delay_ms: u64,
    pub cooldown: LegacyCooldownConfig,
}

/// Legacy cooldown configuration.
#[derive(Debug, Clone)]
pub struct LegacyCooldownConfig {
    pub initial_ms: u64,
    pub max_ms: u64,
    /// Backoff multiplier in thousandths.
    pub backoff_factor_permille: u64,
}

/// Configuration metadata.
#[derive(Debug, Clone)]
pub struct ConfigMetadata {
    pub version: String,
    /// When the configuration was last migrated (Unix milliseconds).
    pub last_migrated_ms: Option<i64>,
    pub original_format: Option<String>,
    pub migration_notes: Vec<String>,
}

/// The current configuration format.
#[derive(Debug, Clone)]
pub struct CurrentConfig {
    pub injection: InjectionConfig,
    pub logging: LoggingConfig,
    pub metadata: ConfigMetadata,
}

/// Whether `names` holds `name`.
fn contains_name(names: &Vec<String>, name: &str) -> (r: bool)
    ensures
        r == exists|i: int| 0 <= i < names@.len() && names@[i]@ == name@,
{
    let n = names.len();
    let mut i: usize = 0;
    while i < n
        invariant
            n == names@.len(),
            i <= n,
            forall|k: int| 0 <= k < i ==> names@[k]@ != name@,
        decreases n - i,
    {
        if str_eq(names[i].as_str(), name) {
            return true;
        }
        i += 1;
    }
    false
}

/// Some name in `names` is `name`.
pub open spec fn has_name(names: Seq<String>, name: Seq<char>) -> bool {
    exists|i: int| 0 <= i < names.len() && names[i]@ == name
}

/// Everything but the fields that a migration sets keeps its default.
pub open spec fn other_fields_default(d: InjectionConfig) -> bool {
    &&& !d.allow_ydotool && !d.allow_mki
    &&& d.paste_action_timeout_ms == 200
    &&& d.chunk_delay_ms == 30
    &&& d.keystroke_rate_cps == 20
    &&& d.max_burst_chars == 50
    &&& d.paste_chunk_chars == 500
    &&& d.focus_cache_duration_ms == 200
    &&& d.clipboard_restore_delay_ms == Some(500u64)
    &&& d.discovery_timeout_ms == 1000
    &&& d.injection_mode@ == "auto"@
    &&& d.redact_logs
    &&& !d.fail_fast
}

/// Migrates a version 1 configuration: the enabled method names switch
/// kdotool and enigo on, the timeout becomes the latency budget and a
/// quarter of it the per-method timeout; focus and the application lists
/// carry over; everything else takes its default.
pub fn migrate_v1_to_current(legacy: LegacyConfigV1) -> (r: Result<CurrentConfig, CompatError>)
    ensures
        r matches Ok(c) && {
            let d = c.injection;
            &&& d.allow_kdotool == has_name(legacy.enabled_methods@, "kdotool"@)
            &&& d.allow_enigo == has_name(legacy.enabled_methods@, "enigo"@)
            &&& d.max_total_latency_ms == legacy.timeout_ms
            &&& d.per_method_timeout_ms == legacy.timeout_ms / 4
            &&& d.require_focus == legacy.require_focus
            &&& d.allowlist@ == legacy.allowlist@
            &&& d.blocklist@ == legacy.blocklist@
            &&& d.inject_on_unknown_focus
            &&& d.cooldown_initial_ms == 10000 && d.cooldown_max_ms == 300000
            &&& d.cooldown_backoff_factor_permille == 2000
            &&& other_fields_default(d)
            &&& c.logging.level@ == "INFO"@
            &&& c.metadata.version@ == "3.0.0"@
            &&& (c.metadata.original_format matches Some(f) && f@ == "1.0"@)
            &&& c.metadata.last_migrated_ms is Some
            &&& c.metadata.migration_notes@.len() == 2
            &&& c.metadata.migration_notes@[0]@ == "Migrated from legacy V1 format"@
            &&& c.metadata.migration_notes@[1]@ == "Default values applied for new configuration options"@
        },
{
    let allow_kdotool = contains_name(&legacy.enabled_methods, "kdotool");
    let allow_enigo = contains_name(&legacy.enabled_methods, "enigo");
    let mut injection = InjectionConfig::default();
    injection.allow_kdotool = allow_kdotool;
    injection.allow_enigo = allow_enigo;
    injection.max_total_latency_ms = legacy.timeout_ms;
    injection.per_method_timeout_ms = legacy.timeout_ms / 4;
    injection.require_focus = legacy.require_focus;
    injection.allowlist = legacy.allowlist;
    injection.blocklist = legacy.blocklist;
    let notes = vec![
        String::from_str("Migrated from legacy V1 format"),
        String::from_str("Default values applied for new configuration options"),
    ];
    let metadata = ConfigMetadata {
        version: String::from_str("3.0.0"),
        last_migrated_ms: Some(utc_now_millis()),
        original_format: Some(String::from_str("1.0")),
        migration_notes: notes,
    };
    Ok(CurrentConfig { injection, logging: LoggingConfig::default(), metadata })
}

/// Some entry is named `name`, and the last such entry is enabled.
pub open spec fn method_enabled(methods: Seq<(String, LegacyMethodConfig)>, name: Seq<char>, dflt: bool) -> bool
    decreases methods.len(),
{
    if methods.len() == 0 {
        dflt
    } else {
        let last = methods.last();
        if last.0@ == name {
            last.1.enabled
        } else {
            method_enabled(methods.drop_last(), name, dflt)
        }
    }
}

/// A method's migrated switch is the `enabled` flag of the last entry that
/// names it (a disabled entry switches it off), and the default when no
/// entry names it.
pub proof fn lemma_method_switch_is_last_entry(methods: Seq<(String, LegacyMethodConfig)>, name: Seq<char>, dflt: bool)
    ensures
        (forall|i: int| 0 <= i < methods.len() ==> (#[trigger] methods[i]).0@ != name) ==> method_enabled(
            methods,
            name,
            dflt,
        ) == dflt,
        forall|i: int|
            0 <= i < methods.len() && (#[trigger] methods[i]).0@ == name && (forall|j: int|
                i < j < methods.len() ==> (#[trigger] methods[j]).0@ != name) ==> method_enabled(methods, name, dflt)
                == methods[i].1.enabled,
    decreases methods.len(),
{
    if methods.len() > 0 {
        let rest = methods.drop_last();
        lemma_method_switch_is_last_entry(rest, name, dflt);
        let n = methods.len() - 1;
        if (forall|i: int| 0 <= i < methods.len() ==> (#[trigger] methods[i]).0@ != name) {
            assert(methods[n].0@ != name);
            assert forall|i: int| 0 <= i < rest.len() implies (#[trigger] rest[i]).0@ != name by {
                assert(rest[i] == methods[i]);
            }
        }
        assert forall|i: int|
            0 <= i < methods.len() && (#[trigger] methods[i]).0@ == name && (forall|j: int|
                i < j < methods.len() ==> (#[trigger] methods[j]).0@ != name) implies method_enabled(
            methods,
            name,
            dflt,
        ) == methods[i].1.enabled by {
            if i < n {
                assert(methods[n].0@ != name);
                assert(rest[i] == methods[i]);
                assert forall|j: int| i < j < rest.len() implies (#[trigger] rest[j]).0@ != name by {
                    assert(rest[j] == methods[j]);
                }
            }
        }
    }
}

/// The per-method timeout after lowering `start` to every smaller method timeout.
pub open spec fn min_method_timeout(methods: Seq<(String, LegacyMethodConfig)>, start: u64) -> u64
    decreases methods.len(),
{
    if methods.len() == 0 {
        start
    } else {
        let prev = min_method_timeout(methods.drop_last(), start);
        match methods.last().1.timeout_ms {
            Some(t) => if t < prev { t } else { prev },
            None => prev,
        }
    }
}

/// Migrates a version 2 configuration: the global timeout, focus settings,
/// application lists and cooldown settings carry over; the "kdotool" and
/// "enigo" method entries switch those methods on or off; the smallest
/// method timeout below the default lowers the per-method timeout.
pub fn migrate_v2_to_current(legacy: LegacyConfigV2) -> (r: Result<CurrentConfig, CompatError>)
    ensures
        r matches Ok(c) && {
            let d = c.injection;
            &&& d.allow_kdotool == method_enabled(legacy.methods@, "kdotool"@, false)
            &&& d.allow_enigo == method_enabled(legacy.methods@, "enigo"@, false)
            &&& d.per_method_timeout_ms == min_method_timeout(legacy.methods@, 250)
            &&& d.max_total_latency_ms == legacy.global_timeout_ms
            &&& d.require_focus == legacy.focus_config.require_focus
            &&& d.inject_on_unknown_focus == legacy.focus_config.inject_on_unknown_focus
            &&& d.allowlist@ == legacy.app_filter.allowlist@
            &&& d.blocklist@ == legacy.app_filter.blocklist@
            &&& d.cooldown_initial_ms == legacy.performance.cooldown.initial_ms
            &&& d.cooldown_max_ms == legacy.performance.cooldown.max_ms
            &&& d.cooldown_backoff_factor_permille == legacy.performance.cooldown.backoff_factor_permille
            &&& other_fields_default(d)
            &&& c.logging.level@ == "INFO"@
            &&& c.metadata.version@ == "3.0.0"@
            &&& (c.metadata.original_format matches Some(f) && f@ == "2.0"@)
            &&& c.metadata.last_migrated_ms is Some
            &&& c.metadata.migration_notes@.len() == 3
            &&& c.metadata.migration_notes@[0]@ == "Migrated from legacy V2 format"@
            &&& c.metadata.migration_notes@[1]@ == "Method-specific configurations preserved"@
            &&& c.metadata.migration_notes@[2]@ == "Performance settings migrated"@
        },
        r matches Ok(c) ==> (forall|i: int| 0 <= i < legacy.methods@.len()
            ==> (#[trigger] legacy.methods@[i]).0@ != "kdotool"@) ==> !c.injection.allow_kdotool,
        r matches Ok(c) ==> (forall|i: int| 0 <= i < legacy.methods@.len()
            ==> (#[trigger] legacy.methods@[i]).0@ != "enigo"@) ==> !c.injection.allow_enigo,
        r matches Ok(c) ==> forall|i: int|
            0 <= i < legacy.methods@.len() && (#[trigger] legacy.methods@[i]).0@ == "kdotool"@ && (forall|j: int|
                i < j < legacy.methods@.len() ==> (#[trigger] legacy.methods@[j]).0@ != "kdotool"@)
                ==> c.injection.allow_kdotool == legacy.methods@[i].1.enabled,
        r matches Ok(c) ==> forall|i: int|
            0 <= i < legacy.methods@.len() && (#[trigger] legacy.methods@[i]).0@ == "enigo"@ && (forall|j: int|
                i < j < legacy.methods@.len() ==> (#[trigger] legacy.methods@[j]).0@ != "enigo"@)
                ==> c.injection.allow_enigo == legacy.methods@[i].1.enabled,
{
    proof {
        lemma_method_switch_is_last_entry(legacy.methods@, "kdotool"@, false);
        lemma_method_switch_is_last_entry(legacy.methods@, "enigo"@, false);
    }
    let mut injection = InjectionConfig::default();
    injection.max_total_latency_ms = legacy.global_timeout_ms;
    injection.require_focus = legacy.focus_config.require_focus;
    injection.inject_on_unknown_focus = legacy.focus_config.inject_on_unknown_focus;
    injection.allowlist = legacy.app_filter.allowlist;
    injection.blocklist = legacy.app_filter.blocklist;
    injection.cooldown_initial_ms = legacy.performance.cooldown.initial_ms;
    injection.cooldown_max_ms = legacy.performance.cooldown.max_ms;
    injection.cooldown_backoff_factor_permille = legacy.performance.cooldown.backoff_factor_permille;
    let n = legacy.methods.len();
    let mut i: usize = 0;
    while i < n
        invariant
            n == legacy.methods@.len(),
            i <= n,
            injection.allow_kdotool == method_enabled(legacy.methods@.take(i as int), "kdotool"@, false),
            injection.allow_enigo == method_enabled(legacy.methods@.take(i as int), "enigo"@, false),
            injection.per_method_timeout_ms == min_method_timeout(legacy.methods@.take(i as int), 250),
            injection.max_total_latency_ms == legacy.global_timeout_ms,
            injection.require_focus == legacy.focus_config.require_focus,
            injection.inject_on_unknown_focus == legacy.focus_config.inject_on_unknown_focus,
            injection.allowlist@ == legacy.app_filter.allowlist@,
            injection.blocklist@ == legacy.app_filter.blocklist@,
            injection.cooldown_initial_ms == legacy.performance.cooldown.initial_ms,
            injection.cooldown_max_ms == legacy.performance.cooldown.max_ms,
            injection.cooldown_backoff_factor_permille == legacy.performance.cooldown.backoff_factor_permille,
            other_fields_default(injection),
        decreases n - i,
    {
        proof {
            let s = legacy.methods@;
            assert(s.take(i + 1).drop_last() =~= s.take(i as int));
            assert(s.take(i + 1).last() == s[i as int]);
        }
        let entry = &legacy.methods[i];
        proof {
            reveal_strlit("kdotool");
            reveal_strlit("enigo");
            assert("kdotool"@.len() != "enigo"@.len());
        }
        if str_eq(entry.0.as_str(), "kdotool") {
            injection.allow_kdotool = entry.1.enabled;
        } else if str_eq(entry.0.as_str(), "enigo") {
            injection.allow_enigo = entry.1.enabled;
        }
        if let Some(timeout) = entry.1.timeout_ms {
            if timeout < injection.per_method_timeout_ms {
                injection.per_method_timeout_ms = timeout;
            }
        }
        i += 1;
    }
    proof {
        assert(legacy.methods@.take(n as int) =~= legacy.methods@);
    }
    let notes = vec![
        String::from_str("Migrated from legacy V2 format"),
        String::from_str("Method-specific configurations preserved"),
        String::from_str("Performance settings migrated"),
    ];
    let metadata = ConfigMetadata {
        version: String::from_str("3.0.0"),
        last_migrated_ms: Some(utc_now_millis()),
        original_format: Some(String::from_str("2.0")),
        migration_notes: notes,
    };
    Ok(CurrentConfig { injection, logging: LoggingConfig::default(), metadata })
}

/// The format version that a configuration's top-level keys indicate:
/// "1.0" with `enabled_methods`, `timeout_ms` and `require_focus`; "2.0"
/// with `methods`, `global_timeout_ms` and `focus_config`; "3.0" with
/// `injection` or `logging`; none otherwise.
pub open spec fn config_version_spec(keys: Seq<String>) -> Option<Seq<char>> {
    if has_name(keys, "enabled_methods"@) && has_name(keys, "timeout_ms"@) && has_name(keys, "require_focus"@) {
        Some("1.0"@)
    } else if has_name(keys, "methods"@) && has_name(keys, "global_timeout_ms"@) && has_name(keys, "focus_config"@) {
        Some("2.0"@)
    } else if has_name(keys, "injection"@) || has_name(keys, "logging"@) {
        Some("3.0"@)
    } else {
        None
    }
}

/// Detects the format version of a configuration from its top-level keys.
pub fn detect_config_version(keys: &Vec<String>) -> (r: Result<String, CompatError>)
    ensures
        match config_version_spec(keys@) {
            Some(v) => r matches Ok(s) && s@ == v,
            None => r == Err::<String, CompatError>(CompatError::UnknownFormat),
        },
{
    if contains_name(keys, "enabled_methods") && contains_name(keys, "timeout_ms") && contains_name(keys, "require_focus") {
        return Ok(String::from_str("1.0"));
    }
    if contains_name(keys, "methods") && contains_name(keys, "global_timeout_ms") && contains_name(keys, "focus_config") {
        return Ok(String::from_str("2.0"));
    }
    if contains_name(keys, "injection") || contains_name(keys, "logging") {
        return Ok(String::from_str("3.0"));
    }
    Err(CompatError::UnknownFormat)
}

/// Migration status.
#[derive(Debug, Clone, Copy, PartialEq, Eq, Structural)]
pub enum MigrationStatus {
    Success,
    Failed,
    Warning,
    Skipped,
}

/// Kind of a compatibility rule.
#[derive(Debug, Clone, Copy, PartialEq, Eq, Structural)]
pub enum CompatibilityRuleType {
    FieldMapping,
    ValueTransformation,
    DefaultInjection,
    Validation,
    Custom,
}

/// What is known of a legacy configuration.
#[derive(Debug, Clone)]
pub struct LegacyConfigInfo {
    pub path: String,
    pub version: String,
    /// Last modification (Unix milliseconds).
    pub last_modified_ms: i64,
    pub migrated: bool,
    pub migration_errors: Vec<String>,
}

/// One migration in the history.
#[derive(Debug, Clone)]
pub struct MigrationEntry {
    /// When it happened (Unix milliseconds).
    pub timestamp_ms: i64,
    pub source_path: String,
    pub target_path: String,
    pub source_version: String,
    pub target_version: String,
    pub status: MigrationStatus,
    pub messages: Vec<String>,
}

/// A rule for handling configurations of matching versions.
#[derive(Debug, Clone)]
pub struct CompatibilityRule {
    pub name: String,
    /// Versions the rule applies to.
    pub source_version_pattern: String,
    pub rule_type: CompatibilityRuleType,
    /// Rule settings by name.
    pub config: Vec<(String, serde_json::Value)>,
    pub enabled: bool,
}

/// Whether a rule applies to `version`: it is enabled and its pattern
/// contains the version or the version contains its pattern.
pub open spec fn rule_applies(rule: CompatibilityRule, version: Seq<char>) -> bool {
    rule.enabled && (seq_contains(rule.source_version_pattern@, version) || seq_contains(
        version,
        rule.source_version_pattern@,
    ))
}

/// Whether a migration involves `path`.
pub open spec fn entry_involves(e: MigrationEntry, path: Seq<char>) -> bool {
    e.source_path@ == path || e.target_path@ == path
}

/// The memory of legacy configurations, migrations and rules.
#[derive(Debug, Clone)]
pub struct CompatibilityMemory {
    /// Known legacy configurations by path (each path once).
    pub legacy_configs: Vec<(String, LegacyConfigInfo)>,
    pub migration_history: Vec<MigrationEntry>,
    pub compatibility_rules: Vec<CompatibilityRule>,
}

/// The first entry of `path`, if any.
pub open spec fn config_index(s: Seq<(String, LegacyConfigInfo)>, path: Seq<char>) -> Option<int> {
    if exists|i: int| 0 <= i < s.len() && s[i].0@ == path && forall|j: int| 0 <= j < i ==> s[j].0@ != path {
        Some(choose|i: int| 0 <= i < s.len() && s[i].0@ == path && forall|j: int| 0 <= j < i ==> s[j].0@ != path)
    } else {
        None
    }
}

impl CompatibilityMemory {
    /// An empty memory.
    pub fn new() -> (m: Self)
        ensures
            m.legacy_configs@.len() == 0,
            m.migration_history@.len() == 0,
            m.compatibility_rules@.len() == 0,
    {
        CompatibilityMemory { legacy_configs: Vec::new(), migration_history: Vec::new(), compatibility_rules: Vec::new() }
    }

    fn find_config(&self, path: &str) -> (r: Option<usize>)
        ensures
            match config_index(self.legacy_configs@, path@) {
                Some(k) => r matches Some(i) && i as int == k,
                None => r is None,
            },
    {
        let n = self.legacy_configs.len();
        let mut i: usize = 0;
        while i < n
            invariant
                n == self.legacy_configs@.len(),
                i <= n,
                forall|k: int| 0 <= k < i ==> self.legacy_configs@[k].0@ != path@,
            decreases n - i,
        {
            if str_eq(self.legacy_configs[i].0.as_str(), path) {
                proof {
                    let s = self.legacy_configs@;
                    assert(s[i as int].0@ == path@ && forall|j: int| 0 <= j < i ==> s[j].0@ != path@);
                    let c = choose|c: int| 0 <= c < s.len() && s[c].0@ == path@ && forall|j: int| 0 <= j < c ==> s[j].0@ != path@;
                    if c > i {
                        assert(s[i as int].0@ != path@);
                    }
                }
                return Some(i);
            }
            i += 1;
        }
        None
    }

    /// Remembers the legacy configuration at `path` with its version, not
    /// yet migrated; it replaces what was known of that path.
    pub fn add_legacy_config(&mut self, path: &str, version: String, _config: &serde_json::Value) -> (r: Result<(), CompatError>)
        ensures
            r is Ok,
            final(self).migration_history == old(self).migration_history,
            final(self).compatibility_rules == old(self).compatibility_rules,
            config_index(final(self).legacy_configs@, path@) matches Some(k) && {
                let info = final(self).legacy_configs@[k].1;
                &&& info.path@ == path@
                &&& info.version@ == version@
                &&& !info.migrated
                &&& info.migration_errors@.len() == 0
            },
            forall|q: Seq<char>| q != path@ ==> config_index(final(self).legacy_configs@, q) == config_index(old(self).legacy_configs@, q),
    {
        let info = LegacyConfigInfo {
            path: String::from_str(path),
            version,
            last_modified_ms: utc_now_millis(),
            migrated: false,
            migration_errors: Vec::new(),
        };
        let ghost pre = self.legacy_configs@;
        match self.find_config(path) {
            Some(i) => {
                self.legacy_configs.set(i, (String::from_str(path), info));
                proof {
                    lemma_config_index_set(pre, self.legacy_configs@, i as int, path@);
                }
            },
            None => {
                self.legacy_configs.push((String::from_str(path), info));
                proof {
                    lemma_config_index_pushed(pre, self.legacy_configs@, path@);
                }
            },
        }
        Ok(())
    }

    /// Appends a migration to the history.
    pub fn record_migration(&mut self, entry: MigrationEntry)
        ensures
            final(self).migration_history@ == old(self).migration_history@.push(entry),
            final(self).legacy_configs == old(self).legacy_configs,
            final(self).compatibility_rules == old(self).compatibility_rules,
    {
        self.migration_history.push(entry);
    }

    /// Adds a compatibility rule.
    pub fn add_compatibility_rule(&mut self, rule: CompatibilityRule)
        ensures
            final(self).compatibility_rules@ == old(self).compatibility_rules@.push(rule),
            final(self).legacy_configs == old(self).legacy_configs,
            final(self).migration_history == old(self).migration_history,
    {
        self.compatibility_rules.push(rule);
    }

    /// The migrations from or to `path`, in order.
    pub fn get_migration_history(&self, path: &str) -> (v: Vec<&MigrationEntry>)
        ensures
            v@.map_values(|e: &MigrationEntry| *e) == self.migration_history@.filter(
                |e: MigrationEntry| entry_involves(e, path@),
            ),
    {
        let n = self.migration_history.len();
        let mut v: Vec<&MigrationEntry> = Vec::new();
        let mut i: usize = 0;
        while i < n
            invariant
                n == self.migration_history@.len(),
                i <= n,
                v@.map_values(|e: &MigrationEntry| *e) == self.migration_history@.take(i as int).filter(
                    |e: MigrationEntry| entry_involves(e, path@),
                ),
            decreases n - i,
        {
            let e = &self.migration_history[i];
            proof {
                let s = self.migration_history@;
                assert(s.take(i + 1).drop_last() =~= s.take(i as int));
                reveal(Seq::filter);
            }
            if str_eq(e.source_path.as_str(), path) || str_eq(e.target_path.as_str(), path) {
                v.push(e);
                proof {
                    assert(v@.map_values(|e: &MigrationEntry| *e) =~= self.migration_history@.take(i as int).filter(
                        |e: MigrationEntry| entry_involves(e, path@),
                    ).push(*e));
                }
            } else {
                proof {
                    assert(v@.map_values(|e: &MigrationEntry| *e) =~= self.migration_history@.take(i as int).filter(
                        |e: MigrationEntry| entry_involves(e, path@),
                    ));
                }
            }
            i += 1;
        }
        proof {
            assert(self.migration_history@.take(n as int) =~= self.migration_history@);
        }
        v
    }

    /// Whether the configuration at `path` is known and was migrated.
    pub fn is_migrated(&self, path: &str) -> (r: bool)
        ensures
            r == (config_index(self.legacy_configs@, path@) matches Some(k) && self.legacy_configs@[k].1.migrated),
    {
        match self.find_config(path) {
            Some(i) => self.legacy_configs[i].1.migrated,
            None => false,
        }
    }

    /// The enabled rules whose pattern and `version` contain one another, in order.
    pub fn get_compatible_rules(&self, version: &str) -> (v: Vec<&CompatibilityRule>)
        ensures
            v@.map_values(|r: &CompatibilityRule| *r) == self.compatibility_rules@.filter(
                |r: CompatibilityRule| rule_applies(r, version@),
            ),
    {
        let n = self.compatibility_rules.len();
        let mut v: Vec<&CompatibilityRule> = Vec::new();
        let mut i: usize = 0;
        while i < n
            invariant
                n == self.compatibility_rules@.len(),
                i <= n,
                v@.map_values(|r: &CompatibilityRule| *r) == self.compatibility_rules@.take(i as int).filter(
                    |r: CompatibilityRule| rule_applies(r, version@),
                ),
            decreases n - i,
        {
            let rule = &self.compatibility_rules[i];
            proof {
                let s = self.compatibility_rules@;
                assert(s.take(i + 1).drop_last() =~= s.take(i as int));
                reveal(Seq::filter);
            }
            if rule.enabled && (str_contains(rule.source_version_pattern.as_str(), version) || str_contains(
                version,
                rule.source_version_pattern.as_str(),
            )) {
                v.push(rule);
                proof {
                    assert(v@.map_values(|r: &CompatibilityRule| *r) =~= self.compatibility_rules@.take(i as int).filter(
                        |r: CompatibilityRule| rule_applies(r, version@),
                    ).push(*rule));
                }
            } else {
                proof {
                    assert(v@.map_values(|r: &CompatibilityRule| *r) =~= self.compatibility_rules@.take(i as int).filter(
                        |r: CompatibilityRule| rule_applies(r, version@),
                    ));
                }
            }
            i += 1;
        }
        proof {
            assert(self.compatibility_rules@.take(n as int) =~= self.compatibility_rules@);
        }
        v
    }
}

/// A recorded migration shows in the history of each path it involves,
/// after the migrations recorded before it; the history of other paths is
/// unchanged.
pub proof fn lemma_recorded_migration_in_history(history: Seq<MigrationEntry>, entry: MigrationEntry, path: Seq<char>)
    ensures
        history.push(entry).filter(|e: MigrationEntry| entry_involves(e, path)) == if entry_involves(entry, path) {
            history.filter(|e: MigrationEntry| entry_involves(e, path)).push(entry)
        } else {
            history.filter(|e: MigrationEntry| entry_involves(e, path))
        },
{
    reveal(Seq::filter);
    assert(history.push(entry).drop_last() =~= history);
}

proof fn lemma_config_index_same(
    pre: Seq<(String, LegacyConfigInfo)>,
    post: Seq<(String, LegacyConfigInfo)>,
    q: Seq<char>,
    i: int,
    path: Seq<char>,
)
    requires
        0 <= i < pre.len(),
        post.len() == pre.len(),
        pre[i].0@ == path,
        post[i].0@ == path,
        q != path,
        forall|j: int| 0 <= j < pre.len() && j != i ==> post[j] == pre[j],
    ensures
        config_index(post, q) == config_index(pre, q),
{
    assert forall|j: int| 0 <= j < pre.len() implies (post[j].0@ == q) == (pre[j].0@ == q) by {
        if j != i {
            assert(post[j] == pre[j]);
        }
    }
    if config_index(pre, q) is Some {
        let k = choose|k: int| 0 <= k < pre.len() && pre[k].0@ == q && forall|j: int| 0 <= j < k ==> pre[j].0@ != q;
        assert(post[k].0@ == q && forall|j: int| 0 <= j < k ==> post[j].0@ != q);
    }
    if config_index(post, q) is Some {
        let k = choose|k: int| 0 <= k < post.len() && post[k].0@ == q && forall|j: int| 0 <= j < k ==> post[j].0@ != q;
        assert(pre[k].0@ == q && forall|j: int| 0 <= j < k ==> pre[j].0@ != q);
    }
}

proof fn lemma_config_index_push(
    pre: Seq<(String, LegacyConfigInfo)>,
    post: Seq<(String, LegacyConfigInfo)>,
    q: Seq<char>,
    path: Seq<char>,
)
    requires
        post.len() == pre.len() + 1,
        post[pre.len() as int].0@ == path,
        q != path,
        forall|j: int| 0 <= j < pre.len() ==> post[j] == pre[j],
    ensures
        config_index(post, q) == config_index(pre, q),
{
    if config_index(pre, q) is Some {
        let k = choose|k: int| 0 <= k < pre.len() && pre[k].0@ == q && forall|j: int| 0 <= j < k ==> pre[j].0@ != q;
        assert(post[k].0@ == q && forall|j: int| 0 <= j < k ==> post[j].0@ != q);
    }
    if config_index(post, q) is Some {
        let k = choose|k: int| 0 <= k < post.len() && post[k].0@ == q && forall|j: int| 0 <= j < k ==> post[j].0@ != q;
        assert(k < pre.len());
        assert(pre[k].0@ == q && forall|j: int| 0 <= j < k ==> pre[j].0@ != q);
    }
}


/// Replacing the first entry of `path` keeps every position.
proof fn lemma_config_index_set(pre: Seq<(String, LegacyConfigInfo)>, post: Seq<(String, LegacyConfigInfo)>, i: int, path: Seq<char>)
    requires
        config_index(pre, path) == Some(i),
        post.len() == pre.len(),
        post[i].0@ == path,
        forall|j: int| 0 <= j < pre.len() && j != i ==> post[j] == pre[j],
    ensures
        config_index(post, path) == Some(i),
        forall|q: Seq<char>| q != path ==> config_index(post, q) == config_index(pre, q),
{
    let c = choose|c: int| 0 <= c < pre.len() && pre[c].0@ == path && forall|j: int| 0 <= j < c ==> pre[j].0@ != path;
    assert(forall|j: int| 0 <= j < i ==> post[j].0@ != path);
    assert(post[i].0@ == path && forall|j: int| 0 <= j < i ==> post[j].0@ != path);
    let c2 = choose|c: int| 0 <= c < post.len() && post[c].0@ == path && forall|j: int| 0 <= j < c ==> post[j].0@ != path;
    if c2 < i {
    } else if c2 > i {
        assert(post[i].0@ != path);
    }
    assert forall|q: Seq<char>| q != path implies config_index(post, q) == config_index(pre, q) by {
        lemma_config_index_same(pre, post, q, i, path);
    }
}

/// Appending a new path keeps every position and finds the new one last.
proof fn lemma_config_index_pushed(pre: Seq<(String, LegacyConfigInfo)>, post: Seq<(String, LegacyConfigInfo)>, path: Seq<char>)
    requires
        config_index(pre, path) is None,
        post.len() == pre.len() + 1,
        post[pre.len() as int].0@ == path,
        forall|j: int| 0 <= j < pre.len() ==> post[j] == pre[j],
    ensures
        config_index(post, path) == Some(pre.len() as int),
        forall|q: Seq<char>| q != path ==> config_index(post, q) == config_index(pre, q),
{
    let k = pre.len() as int;
    assert forall|j: int| 0 <= j < k implies post[j].0@ != path by {
        if post[j].0@ == path {
            assert(pre[j].0@ == path);
            lemma_first_exists(pre, j, path);
        }
    }
    assert(post[k].0@ == path && forall|j: int| 0 <= j < k ==> post[j].0@ != path);
    let c2 = choose|c: int| 0 <= c < post.len() && post[c].0@ == path && forall|j: int| 0 <= j < c ==> post[j].0@ != path;
    if c2 < k {
    }
    assert forall|q: Seq<char>| q != path implies config_index(post, q) == config_index(pre, q) by {
        lemma_config_index_push(pre, post, q, path);
    }
}

/// An occurrence of `path` means a first occurrence exists.
proof fn lemma_first_exists(s: Seq<(String, LegacyConfigInfo)>, j: int, path: Seq<char>)
    requires
        0 <= j < s.len(),
        s[j].0@ == path,
    ensures
        config_index(s, path) is Some,
    decreases j,
{
    if exists|k: int| 0 <= k < j && s[k].0@ == path {
        let k = choose|k: int| 0 <= k < j && s[k].0@ == path;
        lemma_first_exists(s, k, path);
    } else {
        assert(s[j].0@ == path && forall|m: int| 0 <= m < j ==> s[m].0@ != path);
    }
}

} // verus!
