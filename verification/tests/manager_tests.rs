use coldvox_text_injection::env::{EnvironmentProbe, TargetOs};
use coldvox_text_injection::focus::FocusStatus;
use coldvox_text_injection::manager::{InjectionStep, StrategyManager};
use coldvox_text_injection::registry::InjectorRegistry;
use coldvox_text_injection::types::{InjectionConfig, InjectionError, InjectionMethod, InjectionMetrics};

fn linux_probe() -> EnvironmentProbe {
    EnvironmentProbe {
        xdg_session_type: None,
        wayland_display: false,
        display: false,
        xdg_current_desktop: None,
        kde_session_version: false,
        hyprland_instance_signature: false,
        target_os: TargetOs::Linux,
        xdg_desktop_portal_running: false,
        wlr_virtual_keyboard_available: false,
        xdotool_available: false,
    }
}

fn wayland_probe() -> EnvironmentProbe {
    EnvironmentProbe { xdg_session_type: Some("wayland".to_string()), wayland_display: true, ..linux_probe() }
}

fn manager(config: InjectionConfig, env: EnvironmentProbe, registered: Vec<InjectionMethod>) -> StrategyManager {
    StrategyManager::new(config, InjectionMetrics::new(), env, registered)
}

#[test]
fn strategy_manager_creation() {
    let m = manager(InjectionConfig::default(), wayland_probe(), vec![]);
    assert_eq!(m.metrics().attempts, 0);
    assert_eq!(m.metrics().successes, 0);
    assert_eq!(m.metrics().failures, 0);
    assert_eq!(m.metrics().backend_denied, 1);
}

#[test]
fn method_ordering_follows_environment_and_config() {
    let m = manager(InjectionConfig::default(), wayland_probe(), vec![]);
    let order = m.get_method_order_uncached();
    assert_eq!(
        order,
        vec![InjectionMethod::AtspiInsert, InjectionMethod::ClipboardPasteFallback, InjectionMethod::NoOp]
    );

    let m = manager(InjectionConfig::default(), linux_probe(), vec![]);
    assert_eq!(
        m.get_method_order_uncached(),
        vec![InjectionMethod::ClipboardPasteFallback, InjectionMethod::NoOp]
    );

    let config = InjectionConfig { allow_kdotool: true, allow_enigo: true, ..Default::default() };
    let m = manager(config, wayland_probe(), vec![]);
    let order = m.get_method_priority("any_app");
    assert_eq!(
        order,
        vec![
            InjectionMethod::AtspiInsert,
            InjectionMethod::KdoToolAssist,
            InjectionMethod::EnigoText,
            InjectionMethod::ClipboardPasteFallback,
            InjectionMethod::NoOp
        ]
    );
}

#[test]
fn cached_order_equals_uncached_order() {
    let mut m = manager(InjectionConfig::default(), wayland_probe(), vec![]);
    let a = m.get_method_order_cached("app1");
    let b = m.get_method_order_cached("app1");
    let c = m.get_method_order_cached("app2");
    assert_eq!(a, m.get_method_order_uncached());
    assert_eq!(a, b);
    assert_eq!(a, c);
}

#[test]
fn success_record_update() {
    let mut m = manager(InjectionConfig::default(), wayland_probe(), vec![]);
    m.update_success_record("unknown_app", InjectionMethod::AtspiInsert, true, 1000);
    let r = m.success_record("unknown_app", InjectionMethod::AtspiInsert).unwrap();
    assert_eq!(r.success_count, 1);
    assert_eq!(r.fail_count, 0);
    m.update_success_record("unknown_app", InjectionMethod::AtspiInsert, false, 2000);
    let r = m.success_record("unknown_app", InjectionMethod::AtspiInsert).unwrap();
    assert_eq!(r.success_count, 1);
    assert_eq!(r.fail_count, 1);
    assert_eq!(r.last_success_ms, Some(1000));
    assert_eq!(r.last_failure_ms, Some(2000));
}

#[test]
fn third_failure_applies_cooldown() {
    let mut m = manager(InjectionConfig::default(), wayland_probe(), vec![]);
    for t in 0..2u64 {
        m.update_success_record("a", InjectionMethod::EnigoText, false, t);
        assert!(m.cooldown_state("a", InjectionMethod::EnigoText).is_none());
    }
    m.update_success_record("a", InjectionMethod::EnigoText, false, 5);
    let c = m.cooldown_state("a", InjectionMethod::EnigoText).unwrap();
    assert_eq!(c.backoff_level, 1);
    assert_eq!(c.until_ms, 5 + 10_000);
    assert_eq!(c.last_error, "Multiple consecutive failures");
}

#[test]
fn cooldown_update_doubles() {
    let config = InjectionConfig::default();
    let mut m = manager(config.clone(), wayland_probe(), vec![]);
    m.update_cooldown("test_app", InjectionMethod::AtspiInsert, "test error", 0);
    assert_eq!(m.cooldown_state("test_app", InjectionMethod::AtspiInsert).unwrap().backoff_level, 1);
    m.update_cooldown("test_app", InjectionMethod::AtspiInsert, "test error", 0);
    let c = m.cooldown_state("test_app", InjectionMethod::AtspiInsert).unwrap();
    assert_eq!(c.backoff_level, 2);
    assert!(c.until_ms >= config.cooldown_initial_ms * 2);
    assert_eq!(c.until_ms, 20_000);
    assert!(m.is_in_cooldown("test_app", InjectionMethod::AtspiInsert, 19_999));
    assert!(!m.is_in_cooldown("test_app", InjectionMethod::AtspiInsert, 20_000));
    assert!(!m.is_in_cooldown("test_app", InjectionMethod::EnigoText, 0));
}

#[test]
fn cooldown_is_capped() {
    let m = manager(InjectionConfig::default(), wayland_probe(), vec![]);
    assert_eq!(m.cooldown_duration_ms(0), 10_000);
    assert_eq!(m.cooldown_duration_ms(1), 20_000);
    assert_eq!(m.cooldown_duration_ms(4), 160_000);
    assert_eq!(m.cooldown_duration_ms(5), 300_000);
    assert_eq!(m.cooldown_duration_ms(60), 300_000);
}

#[test]
fn fractional_backoff_factor_rounds_down_once() {
    let config = InjectionConfig { cooldown_initial_ms: 1001, cooldown_backoff_factor_permille: 1500, ..Default::default() };
    let m = manager(config, wayland_probe(), vec![]);
    assert_eq!(m.cooldown_duration_ms(1), 1501);
    assert_eq!(m.cooldown_duration_ms(2), 2252);
    assert_eq!(m.cooldown_duration_ms(3), 3378);
}

#[test]
fn small_initial_cooldown_grows_by_fractional_factor() {
    let config = InjectionConfig { cooldown_initial_ms: 1, cooldown_backoff_factor_permille: 1500, ..Default::default() };
    let m = manager(config, wayland_probe(), vec![]);
    assert_eq!(m.cooldown_duration_ms(0), 1);
    assert_eq!(m.cooldown_duration_ms(1), 1);
    assert_eq!(m.cooldown_duration_ms(2), 2);
    assert_eq!(m.cooldown_duration_ms(3), 3);
    assert_eq!(m.cooldown_duration_ms(4), 5);
}

#[test]
fn clear_cooldown_removes_it() {
    let mut m = manager(InjectionConfig::default(), wayland_probe(), vec![]);
    m.apply_cooldown("x", InjectionMethod::NoOp, "e", 0);
    assert!(m.is_in_cooldown("x", InjectionMethod::NoOp, 1));
    m.clear_cooldown("x", InjectionMethod::NoOp);
    assert!(!m.is_in_cooldown("x", InjectionMethod::NoOp, 1));
}

#[test]
fn budget_checking() {
    let config = InjectionConfig { max_total_latency_ms: 100, ..Default::default() };
    let mut m = manager(config, wayland_probe(), vec![]);
    assert!(m.has_budget_remaining(1_000_000));
    m.set_global_start(1000);
    assert!(m.has_budget_remaining(1050));
    assert!(!m.has_budget_remaining(1150));
}

#[test]
fn allow_and_block_lists() {
    let config = InjectionConfig { allowlist: vec!["^firefox$".to_string(), "[".to_string()], ..Default::default() };
    let m = manager(config, wayland_probe(), vec![]);
    assert!(m.is_app_allowed("firefox"));
    assert!(!m.is_app_allowed("firefox-esr"));
    let config = InjectionConfig { blocklist: vec!["term".to_string()], ..Default::default() };
    let m = manager(config, wayland_probe(), vec![]);
    assert!(!m.is_app_allowed("gnome-terminal"));
    assert!(m.is_app_allowed("gedit"));
    let m = manager(InjectionConfig::default(), wayland_probe(), vec![]);
    assert!(m.is_app_allowed("anything"));
}

#[test]
fn empty_text_is_done_at_once() {
    let mut m = manager(InjectionConfig::default(), wayland_probe(), vec![]);
    assert_eq!(m.begin_injection("", 0), Some(Ok(())));
}

#[test]
fn tiny_budget_refuses_injection() {
    let config = InjectionConfig { max_total_latency_ms: 1, ..Default::default() };
    let mut m = manager(config, wayland_probe(), vec![]);
    assert_eq!(m.begin_injection("test text", 0), Some(Err(InjectionError::BudgetExhausted)));
    assert_eq!(m.metrics().rate_limited, 1);
}

#[test]
fn focus_gate() {
    let mut m = manager(InjectionConfig::default(), wayland_probe(), vec![]);
    assert_eq!(m.check_focus(Ok(FocusStatus::Unknown)), Ok(()));
    assert_eq!(m.check_focus(Err(InjectionError::Other("x".to_string()))), Ok(()));
    let config = InjectionConfig { inject_on_unknown_focus: false, require_focus: true, ..Default::default() };
    let mut m = manager(config, wayland_probe(), vec![]);
    assert_eq!(
        m.check_focus(Ok(FocusStatus::Unknown)),
        Err(InjectionError::Other("Unknown focus state and injection disabled".to_string()))
    );
    assert_eq!(m.check_focus(Ok(FocusStatus::NonEditable)), Err(InjectionError::NoEditableFocus));
    assert_eq!(m.check_focus(Ok(FocusStatus::EditableText)), Ok(()));
    assert_eq!(m.metrics().focus_missing, 2);
}

#[test]
fn blocked_application_is_refused() {
    let config = InjectionConfig { blocklist: vec!["secret".to_string()], ..Default::default() };
    let mut m = manager(config, wayland_probe(), vec![]);
    match m.start_run("text", "secret-app") {
        Err(e) => assert_eq!(e, InjectionError::Other("Application secret-app is not allowed for injection".to_string())),
        Ok(_) => panic!("expected refusal"),
    }
}

#[test]
fn injection_protocol_success_after_failure() {
    let registered = vec![InjectionMethod::AtspiInsert, InjectionMethod::ClipboardPasteFallback];
    let mut m = manager(InjectionConfig::default(), wayland_probe(), registered);
    assert_eq!(m.begin_injection("hello", 100), None);
    assert_eq!(m.check_focus(Ok(FocusStatus::EditableText)), Ok(()));
    let mut run = m.start_run("hello", "editor").ok().unwrap();
    assert_eq!(run.app_id(), "editor");
    let step = m.next_step(&mut run, 110);
    assert!(matches!(step, InjectionStep::Attempt(InjectionMethod::AtspiInsert)));
    let failure = Err(InjectionError::MethodFailed("no".to_string()));
    assert_eq!(m.record_outcome(&run, InjectionMethod::AtspiInsert, &failure, 5, 115), None);
    assert_eq!(m.metrics().failures, 1);
    assert!(m.is_in_cooldown("editor", InjectionMethod::AtspiInsert, 116));
    assert_eq!(m.cooldown_state("editor", InjectionMethod::AtspiInsert).unwrap().last_error, "Method failed: no");
    let step = m.next_step(&mut run, 120);
    assert!(matches!(step, InjectionStep::Attempt(InjectionMethod::ClipboardPasteFallback)));
    assert_eq!(m.record_outcome(&run, InjectionMethod::ClipboardPasteFallback, &Ok(()), 3, 123), Some(Ok(())));
    assert_eq!(m.metrics().successes, 1);
    assert_eq!(m.metrics().attempts, 2);
    assert!(m.cooldown_state("editor", InjectionMethod::ClipboardPasteFallback).is_none());
}

#[test]
fn injection_protocol_all_methods_fail() {
    let mut m = manager(InjectionConfig::default(), linux_probe(), vec![]);
    assert_eq!(m.begin_injection("hello", 0), None);
    let mut run = m.start_run("hello", "app").ok().unwrap();
    match m.next_step(&mut run, 1) {
        InjectionStep::Finished(Err(InjectionError::MethodFailed(msg))) => {
            assert_eq!(msg, "All injection methods failed")
        }
        _ => panic!("expected failure"),
    }
    assert!(run.is_finished());
}

#[test]
fn injection_protocol_fail_fast_aborts() {
    let config = InjectionConfig { fail_fast: true, ..Default::default() };
    let mut m = manager(config, linux_probe(), vec![]);
    assert_eq!(m.begin_injection("hello", 0), None);
    let mut run = m.start_run("hello", "app").ok().unwrap();
    assert!(matches!(m.next_step(&mut run, 1), InjectionStep::AbortProcess));
}

#[test]
fn injection_protocol_budget_runs_out() {
    let config = InjectionConfig { max_total_latency_ms: 100, ..Default::default() };
    let mut m = manager(config, wayland_probe(), vec![InjectionMethod::AtspiInsert]);
    assert_eq!(m.begin_injection("hello", 0), None);
    let mut run = m.start_run("hello", "app").ok().unwrap();
    assert!(matches!(m.next_step(&mut run, 500), InjectionStep::Finished(Err(InjectionError::BudgetExhausted))));
    assert_eq!(m.metrics().rate_limited, 1);
}

#[test]
fn registry_falls_back_to_noop() {
    let mut reg: InjectorRegistry<&str> = InjectorRegistry::new();
    assert!(reg.is_empty());
    reg.ensure_fallback("noop");
    assert!(reg.contains(InjectionMethod::NoOp));
    assert_eq!(reg.get(InjectionMethod::NoOp), Some(&"noop"));
    let mut reg: InjectorRegistry<&str> = InjectorRegistry::new();
    reg.insert(InjectionMethod::AtspiInsert, "atspi");
    reg.insert(InjectionMethod::AtspiInsert, "atspi2");
    reg.ensure_fallback("noop");
    assert!(!reg.contains(InjectionMethod::NoOp));
    assert_eq!(reg.get(InjectionMethod::AtspiInsert), Some(&"atspi2"));
    assert_eq!(reg.methods(), vec![InjectionMethod::AtspiInsert]);
}

#[test]
fn cooled_down_method_is_skipped_until_a_success_lifts_it() {
    let registered = vec![InjectionMethod::AtspiInsert, InjectionMethod::ClipboardPasteFallback];
    let mut m = manager(InjectionConfig::default(), wayland_probe(), registered);
    assert_eq!(m.begin_injection("hello", 0), None);
    let mut run = m.start_run("hello", "editor").ok().unwrap();
    assert!(matches!(m.next_step(&mut run, 1), InjectionStep::Attempt(InjectionMethod::AtspiInsert)));
    let failure = Err(InjectionError::Timeout(50));
    assert_eq!(m.record_outcome(&run, InjectionMethod::AtspiInsert, &failure, 50, 51), None);
    let c = m.cooldown_state("editor", InjectionMethod::AtspiInsert).unwrap();
    assert_eq!(c.until_ms, 51 + 10_000);
    assert_eq!(c.backoff_level, 1);

    // A second injection within the cooldown starts past the cooled-down method.
    assert_eq!(m.begin_injection("again", 100), None);
    let mut run = m.start_run("again", "editor").ok().unwrap();
    assert!(matches!(m.next_step(&mut run, 101), InjectionStep::Attempt(InjectionMethod::ClipboardPasteFallback)));

    // Once the cooldown is over the method is tried again; its success lifts the cooldown.
    assert_eq!(m.begin_injection("later", 20_000), None);
    let mut run = m.start_run("later", "editor").ok().unwrap();
    assert!(matches!(m.next_step(&mut run, 20_001), InjectionStep::Attempt(InjectionMethod::AtspiInsert)));
    assert_eq!(m.record_outcome(&run, InjectionMethod::AtspiInsert, &Ok(()), 4, 20_005), Some(Ok(())));
    assert!(m.cooldown_state("editor", InjectionMethod::AtspiInsert).is_none());
    assert!(!m.is_in_cooldown("editor", InjectionMethod::AtspiInsert, 20_006));
    let rec = m.success_record("editor", InjectionMethod::AtspiInsert).unwrap();
    assert_eq!((rec.success_count, rec.fail_count), (1, 1));
    assert_eq!(rec.last_success_ms, Some(20_005));
}

#[test]
fn outcome_counters_add_up() {
    let registered = vec![InjectionMethod::AtspiInsert, InjectionMethod::ClipboardPasteFallback];
    let mut m = manager(InjectionConfig::default(), wayland_probe(), registered);
    assert_eq!(m.begin_injection("hi", 0), None);
    let mut run = m.start_run("hi", "app").ok().unwrap();
    for (i, ok) in [false, true].iter().enumerate() {
        let InjectionStep::Attempt(method) = m.next_step(&mut run, 1 + i as u64) else { panic!("expected an attempt") };
        let outcome = if *ok { Ok(()) } else { Err(InjectionError::Other("x".to_string())) };
        m.record_outcome(&run, method, &outcome, 2, 2 + i as u64);
    }
    let metrics = m.metrics();
    assert_eq!(metrics.successes + metrics.failures, metrics.attempts);
    assert_eq!(metrics.attempts, 2);
    for e in &metrics.method_metrics {
        assert_eq!(e.successes + e.failures, e.attempts);
    }
    assert_eq!(metrics.method_metrics.len(), 2);
}

#[test]
fn cooldown_is_per_application() {
    let registered = vec![InjectionMethod::AtspiInsert, InjectionMethod::ClipboardPasteFallback];
    let mut m = manager(InjectionConfig::default(), wayland_probe(), registered);
    m.apply_cooldown("app_a", InjectionMethod::AtspiInsert, "e", 0);
    assert!(m.is_in_cooldown("app_a", InjectionMethod::AtspiInsert, 1));
    assert!(!m.is_in_cooldown("app_b", InjectionMethod::AtspiInsert, 1));
    assert_eq!(m.begin_injection("hi", 1), None);
    let mut run = m.start_run("hi", "app_b").ok().unwrap();
    assert!(matches!(m.next_step(&mut run, 2), InjectionStep::Attempt(InjectionMethod::AtspiInsert)));
    let mut run = m.start_run("hi", "app_a").ok().unwrap();
    assert!(matches!(m.next_step(&mut run, 2), InjectionStep::Attempt(InjectionMethod::ClipboardPasteFallback)));
}

#[test]
fn session_type_is_recognised_in_any_case() {
    for session in ["Wayland", "X11", "wayland"] {
        let env = EnvironmentProbe { xdg_session_type: Some(session.to_string()), ..linux_probe() };
        let m = manager(InjectionConfig::default(), env, vec![]);
        assert!(m.get_method_order_uncached().contains(&InjectionMethod::AtspiInsert));
    }
    let env = EnvironmentProbe { xdg_session_type: Some("tty".to_string()), ..linux_probe() };
    let m = manager(InjectionConfig::default(), env, vec![]);
    assert!(!m.get_method_order_uncached().contains(&InjectionMethod::AtspiInsert));
}
