use coldvox_text_injection::compat::{
    detect_config_version, migrate_v1_to_current, migrate_v2_to_current, CompatError,
    CompatibilityMemory, CompatibilityRule, CompatibilityRuleType, LegacyAppFilter, LegacyConfigV1,
    LegacyConfigV2, LegacyCooldownConfig, LegacyFocusConfig, LegacyMethodConfig,
    LegacyPerformanceConfig, MigrationEntry, MigrationStatus,
};
use coldvox_text_injection::config_timeout::{TimeoutConfig, MAX_TIMEOUT_MS, MIN_TIMEOUT_MS};
use coldvox_text_injection::constants::{global_injection_budget, per_backend_soft_timeout, test_watchdog_timeout};
use coldvox_text_injection::types::InjectionConfig;
use std::time::Duration;

#[test]
fn test_timeout_clamping() {
    let config = InjectionConfig {
        max_total_latency_ms: 5,
        per_method_timeout_ms: 50000,
        cooldown_initial_ms: 100,
        ..Default::default()
    };
    let timeout_config = TimeoutConfig::new(&config);
    assert_eq!(timeout_config.max_total_latency(), Duration::from_millis(MIN_TIMEOUT_MS));
    assert_eq!(timeout_config.per_method_timeout(), Duration::from_millis(MAX_TIMEOUT_MS));
    assert_eq!(timeout_config.cooldown_initial(), Duration::from_millis(100));
}

#[test]
fn test_backoff_factor_clamping() {
    let config = InjectionConfig {
        cooldown_backoff_factor_permille: 500,
        ..Default::default()
    };
    let timeout_config = TimeoutConfig::new(&config);
    assert_eq!(timeout_config.cooldown_backoff_factor(), 1000);

    let config = InjectionConfig {
        cooldown_backoff_factor_permille: 2500,
        ..Default::default()
    };
    let timeout_config = TimeoutConfig::new(&config);
    assert_eq!(timeout_config.cooldown_backoff_factor(), 2500);
}

#[test]
fn test_keystroke_delay_calculation() {
    let config = InjectionConfig { keystroke_rate_cps: 50, ..Default::default() };
    let timeout_config = TimeoutConfig::new(&config);
    assert_eq!(timeout_config.keystroke_delay(), Duration::from_millis(20));

    let config = InjectionConfig { keystroke_rate_cps: 0, ..Default::default() };
    let timeout_config = TimeoutConfig::new(&config);
    assert_eq!(timeout_config.keystroke_delay(), Duration::from_millis(50));
}

#[test]
fn cooldowns_clamped_to_ten_minutes_and_restore_delay_defaults() {
    let config = InjectionConfig {
        cooldown_max_ms: 10_000_000,
        cooldown_initial_ms: 0,
        clipboard_restore_delay_ms: None,
        discovery_timeout_ms: 31_000,
        ..Default::default()
    };
    let t = TimeoutConfig::new(&config);
    assert_eq!(t.cooldown_max(), Duration::from_millis(600_000));
    assert_eq!(t.cooldown_initial(), Duration::from_millis(10));
    assert_eq!(t.clipboard_restore_delay(), Duration::from_millis(500));
    assert_eq!(t.discovery_timeout(), Duration::from_millis(30_000));
    assert_eq!(t.chunk_delay(), Duration::from_millis(30));
    assert_eq!(t.focus_cache_duration(), Duration::from_millis(200));
    assert_eq!(t.paste_action_timeout(), Duration::from_millis(200));
}

#[test]
fn constant_durations() {
    assert_eq!(global_injection_budget(), Duration::from_millis(1200));
    assert_eq!(test_watchdog_timeout(), Duration::from_secs(10));
    assert_eq!(per_backend_soft_timeout(), Duration::from_millis(600));
}

#[test]
fn test_legacy_v1_migration() {
    let legacy = LegacyConfigV1 {
        enabled_methods: vec!["kdotool".to_string(), "enigo".to_string()],
        timeout_ms: 1000,
        require_focus: true,
        allowlist: vec!["test_app".to_string()],
        blocklist: vec!["blocked_app".to_string()],
    };
    let current = migrate_v1_to_current(legacy).unwrap();
    assert!(current.injection.allow_kdotool);
    assert!(current.injection.allow_enigo);
    assert_eq!(current.injection.max_total_latency_ms, 1000);
    assert!(current.injection.require_focus);
    assert_eq!(current.injection.allowlist.len(), 1);
    assert_eq!(current.injection.blocklist.len(), 1);
    assert_eq!(current.metadata.original_format, Some("1.0".to_string()));
    assert_eq!(current.injection.per_method_timeout_ms, 250);
}

fn v2_with_methods(methods: Vec<(String, LegacyMethodConfig)>) -> LegacyConfigV2 {
    LegacyConfigV2 {
        methods,
        global_timeout_ms: 2000,
        focus_config: LegacyFocusConfig {
            require_focus: false,
            inject_on_unknown_focus: true,
            check_interval_ms: 100,
        },
        app_filter: LegacyAppFilter {
            allowlist: vec!["allowed".to_string()],
            blocklist: vec!["blocked".to_string()],
            use_regex: false,
        },
        performance: LegacyPerformanceConfig {
            max_retries: 3,
            retry_delay_ms: 100,
            cooldown: LegacyCooldownConfig {
                initial_ms: 5000,
                max_ms: 60000,
                backoff_factor_permille: 2000,
            },
        },
    }
}

#[test]
fn test_legacy_v2_migration() {
    let methods = vec![(
        "kdotool".to_string(),
        LegacyMethodConfig { enabled: true, timeout_ms: Some(500), priority: 1, params: vec![] },
    )];
    let current = migrate_v2_to_current(v2_with_methods(methods)).unwrap();
    assert!(current.injection.allow_kdotool);
    assert_eq!(current.injection.max_total_latency_ms, 2000);
    assert!(!current.injection.require_focus);
    assert!(current.injection.inject_on_unknown_focus);
    assert_eq!(current.injection.cooldown_initial_ms, 5000);
    assert_eq!(current.metadata.original_format, Some("2.0".to_string()));
}

#[test]
fn v2_method_timeout_lowers_per_method_timeout() {
    let methods = vec![
        ("enigo".to_string(), LegacyMethodConfig { enabled: true, timeout_ms: Some(120), priority: 2, params: vec![] }),
        ("other".to_string(), LegacyMethodConfig { enabled: true, timeout_ms: Some(900), priority: 3, params: vec![] }),
    ];
    let current = migrate_v2_to_current(v2_with_methods(methods)).unwrap();
    assert!(current.injection.allow_enigo);
    assert!(!current.injection.allow_kdotool);
    assert_eq!(current.injection.per_method_timeout_ms, 120);
    assert_eq!(current.metadata.migration_notes.len(), 3);
}

fn keys(names: &[&str]) -> Vec<String> {
    names.iter().map(|s| s.to_string()).collect()
}

#[test]
fn test_config_version_detection() {
    let v1 = keys(&["enabled_methods", "timeout_ms", "require_focus"]);
    let v2 = keys(&["methods", "global_timeout_ms", "focus_config"]);
    let v3 = keys(&["injection", "logging"]);
    assert_eq!(detect_config_version(&v1).unwrap(), "1.0");
    assert_eq!(detect_config_version(&v2).unwrap(), "2.0");
    assert_eq!(detect_config_version(&v3).unwrap(), "3.0");
}

#[test]
fn unknown_config_format_is_an_error() {
    assert_eq!(detect_config_version(&keys(&["timeout_ms"])), Err(CompatError::UnknownFormat));
    assert_eq!(detect_config_version(&keys(&[])), Err(CompatError::UnknownFormat));
    assert_eq!(detect_config_version(&keys(&["logging"])).unwrap(), "3.0");
}

#[test]
fn test_compatibility_memory() {
    let mut memory = CompatibilityMemory::new();
    let path = "/test/config.json";
    memory
        .add_legacy_config(path, "1.0".to_string(), &serde_json::Value::Null)
        .unwrap();
    assert!(!memory.is_migrated(path));

    let entry = MigrationEntry {
        timestamp_ms: 0,
        source_path: path.to_string(),
        target_path: "/test/config_new.json".to_string(),
        source_version: "1.0".to_string(),
        target_version: "3.0".to_string(),
        status: MigrationStatus::Success,
        messages: vec!["Migration successful".to_string()],
    };
    memory.record_migration(entry);
    assert_eq!(memory.get_migration_history(path).len(), 1);
    assert_eq!(memory.get_migration_history("/test/config_new.json").len(), 1);
    assert_eq!(memory.get_migration_history("/elsewhere").len(), 0);
}

#[test]
fn compatible_rules_match_either_way_and_only_when_enabled() {
    let mut memory = CompatibilityMemory::new();
    let rule = |name: &str, pattern: &str, enabled: bool| CompatibilityRule {
        name: name.to_string(),
        source_version_pattern: pattern.to_string(),
        rule_type: CompatibilityRuleType::FieldMapping,
        config: vec![],
        enabled,
    };
    memory.add_compatibility_rule(rule("a", "1.0", true));
    memory.add_compatibility_rule(rule("b", "1", true));
    memory.add_compatibility_rule(rule("c", "1.0.3", true));
    memory.add_compatibility_rule(rule("d", "1.0", false));
    memory.add_compatibility_rule(rule("e", "2.0", true));
    let names: Vec<String> = memory.get_compatible_rules("1.0").iter().map(|r| r.name.clone()).collect();
    assert_eq!(names, vec!["a".to_string(), "b".to_string(), "c".to_string()]);
}

#[test]
fn re_adding_a_legacy_config_replaces_it() {
    let mut memory = CompatibilityMemory::new();
    memory.add_legacy_config("/a", "1.0".to_string(), &serde_json::Value::Null).unwrap();
    memory.legacy_configs[0].1.migrated = true;
    assert!(memory.is_migrated("/a"));
    memory.add_legacy_config("/a", "2.0".to_string(), &serde_json::Value::Null).unwrap();
    assert_eq!(memory.legacy_configs.len(), 1);
    assert!(!memory.is_migrated("/a"));
    assert_eq!(memory.legacy_configs[0].1.version, "2.0");
}

#[test]
fn migration_history_keeps_order_per_path() {
    let mut memory = CompatibilityMemory::new();
    let entry = |source: &str, target: &str, version: &str| MigrationEntry {
        timestamp_ms: 0,
        source_path: source.to_string(),
        target_path: target.to_string(),
        source_version: version.to_string(),
        target_version: "3.0".to_string(),
        status: MigrationStatus::Success,
        messages: vec![],
    };
    memory.record_migration(entry("/a.json", "/b.json", "1.0"));
    memory.record_migration(entry("/c.json", "/d.json", "1.0"));
    memory.record_migration(entry("/b.json", "/e.json", "2.0"));
    let history = memory.get_migration_history("/b.json");
    assert_eq!(history.len(), 2);
    assert_eq!(history[0].source_path, "/a.json");
    assert_eq!(history[1].source_path, "/b.json");
    assert_eq!(history[1].source_version, "2.0");
    assert_eq!(memory.get_migration_history("/d.json").len(), 1);
}
