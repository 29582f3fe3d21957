use coldvox_text_injection::clipboard::{detect_clipboard_backend, ClipboardBackup, Context};
use coldvox_text_injection::confirm::ConfirmationResult;
use coldvox_text_injection::env::{EnvironmentProbe, TargetOs};
use coldvox_text_injection::error::InjectionError as PipelineError;
use coldvox_text_injection::focus::{FocusQueryAnswer, FocusStatus, SystemFocusAdapter};
use coldvox_text_injection::injectors::{
    atspi_use_paste, find_paste_action, KdotoolInjector, MkiInjector, NoOpInjector, TextInjector,
    YdotoolInjector,
};
use coldvox_text_injection::metrics::{InjectionMetrics as PipelineMetrics, MetricsSink};
use coldvox_text_injection::orchestrator::{
    AtspiContext, DesktopEnvironment, FastFailStep, StageOutcome, StrategyOrchestrator,
};
use coldvox_text_injection::prewarm::{
    portal_data_for, prewarm_plan_for, virtual_keyboard_for, AtspiData, CachedData, ClipboardData,
    PrewarmController,
};
use coldvox_text_injection::probe::{classify_probe, BackendId, ProbeInputs, ProbeState};
use coldvox_text_injection::processor::{InjectionProcessor, TranscriptionEvent};
use coldvox_text_injection::session::SessionState;
use coldvox_text_injection::types::{InjectionConfig, InjectionError, InjectionMethod, InjectionMetrics, InjectionMode};
use coldvox_text_injection::unified_clipboard::{paste_outcome, restore_delay_ms, ClipboardInjectionMode};

fn linux_probe() -> EnvironmentProbe {
    EnvironmentProbe {
        xdg_session_type: None,
        wayland_display: false,
        display: false,
        xdg_current_desktop: None,
        kde_session_version: false,
        hyprland_instance_signature: false,
        target_os: TargetOs::Linux,
        xdg_desktop_portal_running: false,
        wlr_virtual_keyboard_available: false,
        xdotool_available: false,
    }
}

#[test]
fn test_strategy_order() {
    let config = InjectionConfig::default();
    let cases = vec![
        (DesktopEnvironment::KdeWayland, vec![InjectionMethod::AtspiInsert, InjectionMethod::ClipboardPasteFallback]),
        (DesktopEnvironment::Hyprland, vec![InjectionMethod::AtspiInsert, InjectionMethod::ClipboardPasteFallback]),
        (DesktopEnvironment::Windows, vec![InjectionMethod::ClipboardPasteFallback]),
    ];
    for (env, expected) in cases {
        let o = StrategyOrchestrator::with_environment(config.clone(), env, false);
        assert_eq!(o.get_strategy_order(), expected, "Strategy order mismatch for {:?}", env);
    }
}

#[test]
fn environment_detection() {
    let wayland_kde = EnvironmentProbe {
        xdg_session_type: Some("wayland".to_string()),
        xdg_current_desktop: Some("KDE".to_string()),
        ..linux_probe()
    };
    assert_eq!(StrategyOrchestrator::detect_environment(&wayland_kde), DesktopEnvironment::KdeWayland);
    let hypr = EnvironmentProbe { wayland_display: true, hyprland_instance_signature: true, ..linux_probe() };
    assert_eq!(StrategyOrchestrator::detect_environment(&hypr), DesktopEnvironment::Hyprland);
    let gnome_x = EnvironmentProbe { display: true, xdg_current_desktop: Some("ubuntu:GNOME".to_string()), ..linux_probe() };
    assert_eq!(StrategyOrchestrator::detect_environment(&gnome_x), DesktopEnvironment::GnomeX11);
    let kde_x = EnvironmentProbe { display: true, kde_session_version: true, ..linux_probe() };
    assert_eq!(StrategyOrchestrator::detect_environment(&kde_x), DesktopEnvironment::KdeX11);
    assert_eq!(StrategyOrchestrator::detect_environment(&linux_probe()), DesktopEnvironment::Unknown);
    let win = EnvironmentProbe { target_os: TargetOs::Windows, display: true, ..linux_probe() };
    assert_eq!(StrategyOrchestrator::detect_environment(&win), DesktopEnvironment::Windows);
    assert_eq!(DesktopEnvironment::GnomeWayland.label(), "GNOME/Wayland");
    assert_eq!(DesktopEnvironment::MacOS.label(), "macOS");
}

#[test]
fn environment_detection_matches_session_type_exactly() {
    let upper = EnvironmentProbe { xdg_session_type: Some("X11".to_string()), ..linux_probe() };
    assert_eq!(StrategyOrchestrator::detect_environment(&upper), DesktopEnvironment::Unknown);
    let lower = EnvironmentProbe { xdg_session_type: Some("x11".to_string()), ..linux_probe() };
    assert_eq!(StrategyOrchestrator::detect_environment(&lower), DesktopEnvironment::OtherX11);
    let wl = EnvironmentProbe { xdg_session_type: Some("WAYLAND".to_string()), ..linux_probe() };
    assert_eq!(StrategyOrchestrator::detect_environment(&wl), DesktopEnvironment::Unknown);
}

#[test]
fn orchestrator_empty_text_handling() {
    let o = StrategyOrchestrator::with_environment(InjectionConfig::default(), DesktopEnvironment::OtherX11, true);
    assert!(matches!(o.begin_inject("", &AtspiContext::default()), Err(Ok(()))));
}

#[test]
fn fast_fail_loop() {
    let o = StrategyOrchestrator::with_environment(InjectionConfig::default(), DesktopEnvironment::OtherWayland, true);
    let mut run = match o.begin_inject("hello", &AtspiContext::default()) {
        Ok(r) => r,
        Err(_) => panic!("expected a run"),
    };
    assert_eq!(run.target_app(), "unknown");
    assert!(matches!(o.fast_fail_next(&mut run, 0), FastFailStep::Attempt(InjectionMethod::AtspiInsert)));
    assert_eq!(o.fast_fail_after_stage(&StageOutcome::Failed(InjectionError::MethodFailed("x".to_string()))), None);
    assert!(matches!(o.fast_fail_next(&mut run, 10), FastFailStep::Attempt(InjectionMethod::ClipboardPasteFallback)));
    assert_eq!(o.fast_fail_after_stage(&StageOutcome::Injected(Some(ConfirmationResult::Success))), Some(Ok(())));
    assert_eq!(o.fast_fail_after_stage(&StageOutcome::TimedOut), Some(Err(InjectionError::Timeout(50))));
    match o.fast_fail_next(&mut run, 20) {
        FastFailStep::Finished(Err(InjectionError::AllMethodsFailed(m))) => {
            assert_eq!(m, "All strategies failed in fast-fail loop")
        }
        _ => panic!("expected the end"),
    }
}

#[test]
fn fast_fail_without_injector_or_budget() {
    let o = StrategyOrchestrator::with_environment(InjectionConfig::default(), DesktopEnvironment::OtherWayland, false);
    let mut run = match o.begin_inject("hello", &AtspiContext::default()) {
        Ok(r) => r,
        Err(_) => panic!("expected a run"),
    };
    assert!(matches!(o.fast_fail_next(&mut run, 0), FastFailStep::Finished(Err(InjectionError::AllMethodsFailed(_)))));
    let o = StrategyOrchestrator::with_environment(InjectionConfig::default(), DesktopEnvironment::OtherWayland, true);
    let mut run = match o.begin_inject("hello", &AtspiContext::default()) {
        Ok(r) => r,
        Err(_) => panic!("expected a run"),
    };
    assert!(matches!(o.fast_fail_next(&mut run, 801), FastFailStep::Finished(Err(InjectionError::BudgetExhausted))));
}

#[test]
fn orchestrator_backend_info() {
    let o = StrategyOrchestrator::with_environment(InjectionConfig::default(), DesktopEnvironment::KdeX11, true);
    let info = o.backend_info();
    assert_eq!(info[0], ("type", "Strategy Orchestrator".to_string()));
    assert_eq!(info[1], ("environment", "KDE/X11".to_string()));
    assert_eq!(o.desktop_environment(), DesktopEnvironment::KdeX11);
}

#[test]
fn cached_data_ttl() {
    let mut cached: CachedData<String> = CachedData::new();
    assert!(!cached.is_valid());
    assert!(cached.get().is_none());
    cached.update("test".to_string());
    assert!(cached.is_valid());
    assert_eq!(cached.get(), Some(&"test".to_string()));
    assert!(cached.is_valid_after(2999));
    assert!(!cached.is_valid_after(3000));
}

#[test]
fn prewarm_controller_creation_and_results() {
    let mut c = PrewarmController::new();
    assert!(!c.is_event_listener_armed());
    assert!(c.get_clipboard_data().is_none());
    assert!(c.get_portal_status().is_none());
    assert!(c.get_virtual_keyboard_status().is_none());
    let ctx = c.get_atspi_context();
    assert!(ctx.focused_node.is_none() && ctx.target_app.is_none() && ctx.window_id.is_none());
    assert!(c.is_any_data_expired());

    let atspi = AtspiData {
        connection: Some("connected".to_string()),
        focused_node: Some("focused".to_string()),
        target_app: Some("editor".to_string()),
        window_id: Some("/w/1".to_string()),
        has_editable_text: true,
    };
    let clip = ClipboardData { content: Some(b"x".to_vec()), mime_type: Some("text/plain".to_string()) };
    let summary = c.apply_results(Ok(atspi), Ok(true), Ok(clip), Err("no portal".to_string()), Ok(virtual_keyboard_for(false)));
    assert!(summary.atspi && summary.event_listener && summary.clipboard && !summary.portal && summary.virtual_keyboard);
    assert!(c.is_event_listener_armed());
    let ctx = c.get_atspi_context();
    assert_eq!(ctx.target_app.as_deref(), Some("editor"));
    assert_eq!(ctx.focused_node.as_deref(), Some("editor"));
    assert_eq!(ctx.window_id.as_deref(), Some("/w/1"));
    assert!(c.get_portal_status().is_none());
    assert!(c.is_any_data_expired());
}

#[test]
fn prewarm_getters_follow_the_data_age() {
    let mut c = PrewarmController::new();
    assert!(c.get_atspi_context_after(0).target_app.is_none());
    assert!(c.get_clipboard_data_after(0).is_none());
    let atspi = AtspiData {
        connection: None,
        focused_node: None,
        target_app: Some("editor".to_string()),
        window_id: Some("/w/2".to_string()),
        has_editable_text: false,
    };
    let clip = ClipboardData { content: Some(b"y".to_vec()), mime_type: None };
    c.apply_results(Ok(atspi), Err("x".to_string()), Ok(clip), Ok(portal_data_for(true)), Ok(virtual_keyboard_for(true)));
    let fresh = c.get_atspi_context_after(2999);
    assert_eq!(fresh.target_app.as_deref(), Some("editor"));
    assert_eq!(fresh.focused_node.as_deref(), Some("editor"));
    assert_eq!(fresh.window_id.as_deref(), Some("/w/2"));
    let stale = c.get_atspi_context_after(3000);
    assert!(stale.target_app.is_none() && stale.focused_node.is_none() && stale.window_id.is_none());
    assert_eq!(c.get_clipboard_data_after(10).unwrap().content, Some(b"y".to_vec()));
    assert!(c.get_clipboard_data_after(3000).is_none());
    assert!(c.get_portal_status_after(0).unwrap().session_available);
    assert!(c.get_portal_status_after(5000).is_none());
    assert!(c.get_virtual_keyboard_status_after(1).unwrap().connected);
    assert!(c.get_virtual_keyboard_status_after(3001).is_none());
    assert!(!c.is_any_data_expired_after(0, 1, 2, 2999));
    assert!(c.is_any_data_expired_after(0, 1, 3000, 2));
    assert!(!c.is_any_data_expired());
    assert!(c.get_portal_status().is_some());
}

#[test]
fn prewarm_helpers() {
    let p = prewarm_plan_for(InjectionMethod::AtspiInsert);
    assert!(p.atspi && !p.clipboard && p.event_listener);
    let p = prewarm_plan_for(InjectionMethod::ClipboardPasteFallback);
    assert!(!p.atspi && p.clipboard && p.event_listener);
    let p = prewarm_plan_for(InjectionMethod::EnigoText);
    assert!(!p.atspi && !p.clipboard && p.event_listener);
    let portal = portal_data_for(true);
    assert!(portal.session_available && portal.remote_desktop_connected);
    let vk = virtual_keyboard_for(true);
    assert!(vk.connected);
    assert_eq!(vk.handle.as_deref(), Some("hyprland-vkbd"));
    let full = ClipboardData { content: Some(vec![1, 2]), mime_type: Some("text/plain".to_string()) };
    let b = full.into_backup().unwrap();
    assert_eq!(b.content, vec![1, 2]);
    let partial = ClipboardData { content: None, mime_type: Some("text/plain".to_string()) };
    assert!(partial.into_backup().is_none());
}

#[test]
fn injection_processor_basic_flow() {
    let mut p = InjectionProcessor::new(InjectionConfig::default(), InjectionMetrics::new());
    assert_eq!(p.session_state(), SessionState::Idle);
    p.handle_transcription(TranscriptionEvent::Final { utterance_id: 1, text: "Hello world".to_string() });
    assert_eq!(p.session_state(), SessionState::Buffering);
    p.session_mut().check_for_silence_transition_after(Some(300));
    assert_eq!(p.session_state(), SessionState::WaitingForSilence);
    assert!(p.session_mut().should_inject_after(Some(300)));
    let text = p.session_mut().take_buffer();
    assert_eq!(text, "Hello world");
    assert_eq!(p.session_state(), SessionState::Idle);
}

#[test]
fn processor_metrics_update() {
    let mut p = InjectionProcessor::new(InjectionConfig::default(), InjectionMetrics::new());
    p.handle_transcription(TranscriptionEvent::Final { utterance_id: 1, text: "Test transcription".to_string() });
    let m = p.metrics();
    assert_eq!(m.session_state, SessionState::Buffering);
    assert_eq!(m.buffer_size, 1);
    assert!(m.buffer_chars > 0);
    p.record_injection_result(true);
    p.record_injection_result(false);
    let m = p.metrics();
    assert_eq!(m.successful_injections, 1);
    assert_eq!(m.failed_injections, 1);
    assert!(m.last_injection_time.is_some());
}

#[test]
fn partial_transcription_handling() {
    let mut p = InjectionProcessor::new(InjectionConfig::default(), InjectionMetrics::new());
    p.handle_transcription(TranscriptionEvent::Partial { utterance_id: 1, text: "Hello".to_string() });
    assert_eq!(p.session_state(), SessionState::Idle);
    p.handle_transcription(TranscriptionEvent::Final { utterance_id: 1, text: "Hello world".to_string() });
    assert_eq!(p.session_state(), SessionState::Buffering);
    assert_eq!(p.session().buffer_len(), 1);
    assert_eq!(p.last_partial_text(), None);
    let m = p.metrics();
    assert_eq!(m.buffer_size, 1);
    assert_eq!(m.buffer_chars, 11);
}

#[test]
fn clipboard_snapshot_validity_follows_elapsed_time() {
    let b = ClipboardBackup::new(b"test content".to_vec(), "text/plain".to_string());
    assert_eq!(b.content, b"test content".to_vec());
    assert_eq!(b.mime_type, "text/plain");
    assert!(b.is_valid(std::time::Duration::from_secs(1)));
    assert!(!b.is_valid(std::time::Duration::ZERO));
    assert!(b.is_valid_after(std::time::Duration::from_millis(5), std::time::Duration::from_secs(1)));
    assert!(!b.is_valid_after(std::time::Duration::from_secs(1), std::time::Duration::from_secs(1)));
    assert!(!b.is_valid_after(std::time::Duration::ZERO, std::time::Duration::ZERO));
    let u = coldvox_text_injection::unified_clipboard::ClipboardBackup::new(b"x".to_vec(), "text/plain".to_string());
    assert!(u.is_valid(std::time::Duration::from_secs(1)));
    assert!(!u.is_valid(std::time::Duration::ZERO));
    assert!(u.is_valid_after(std::time::Duration::from_nanos(999), std::time::Duration::from_micros(1)));
    assert!(!u.is_valid_after(std::time::Duration::from_micros(1), std::time::Duration::from_micros(1)));
}

#[test]
fn processor_prepare_and_preview() {
    let mut p = InjectionProcessor::new(InjectionConfig::default(), InjectionMetrics::new());
    assert_eq!(p.prepare_injection(), None);
    let long = "a".repeat(150);
    p.handle_transcription(TranscriptionEvent::Final { utterance_id: 1, text: long.clone() });
    let preview = p.buffer_preview();
    assert_eq!(preview, format!("{}...", &long[..100]));
    p.force_inject();
    assert_eq!(p.prepare_injection(), Some(long));
    p.handle_transcription(TranscriptionEvent::Final { utterance_id: 2, text: "short".to_string() });
    assert_eq!(p.begin_injection(), Some("short".to_string()));
    assert_eq!(p.session().metrics().last_latency_from_final_ms, Some(0));
    assert_eq!(p.session().metrics().injections_started, 1);
    assert_eq!(p.begin_injection(), None);
    p.handle_transcription(TranscriptionEvent::Final { utterance_id: 3, text: "gone".to_string() });
    p.clear_session();
    assert_eq!(p.session_state(), SessionState::Idle);
}

#[test]
fn metrics_sink_counts_per_backend() {
    let mut m = PipelineMetrics::new();
    m.emit_start(BackendId::Atspi);
    m.emit_success(BackendId::Atspi, 40);
    m.emit_start(BackendId::Atspi);
    m.emit_success(BackendId::Atspi, 20);
    m.emit_fail(BackendId::Ydotool, &PipelineError::PreconditionNotMet { reason: "x" });
    m.emit_fail(BackendId::Atspi, &PipelineError::Other("y".to_string()));
    m.emit_fail(BackendId::Atspi, &PipelineError::Other("z".to_string()));
    assert_eq!(m.total_attempts, 2);
    assert_eq!(m.total_successes, 2);
    let atspi = &m.backend_metrics[0];
    assert_eq!(atspi.0, BackendId::Atspi);
    assert_eq!(atspi.1.attempts, 2);
    assert_eq!(atspi.1.successes, 2);
    assert_eq!(atspi.1.failures, 2);
    assert_eq!(atspi.1.sum_latency_ms, 60);
    assert_eq!(atspi.1.min_latency_ms, 20);
    assert_eq!(atspi.1.max_latency_ms, 40);
    assert_eq!(atspi.1.samples(), vec![40, 20]);
    assert_eq!(m.failures_by_kind, vec![("PreconditionNotMet".to_string(), 1), ("Other".to_string(), 2)]);
}

#[test]
fn latency_window_keeps_last_sixty_four() {
    let mut m = PipelineMetrics::new();
    for i in 0..70u32 {
        m.emit_success(BackendId::ClipboardX11, i + 1);
    }
    let s = m.backend_metrics[0].1.samples();
    assert_eq!(s.len(), 64);
    assert_eq!(s[0], 7);
    assert_eq!(s[63], 70);
}

#[test]
fn probe_classification() {
    let all = ProbeInputs { have_x: true, have_wayland: true, have_dbus: true, atspi_registry_ok: true, wl_paste_ok: true, xclip_ok: false };
    match classify_probe(all) {
        ProbeState::FullyAvailable { usable } => assert_eq!(usable, vec![BackendId::Atspi, BackendId::ClipboardWayland]),
        _ => panic!("expected fully available"),
    }
    let no_dbus = ProbeInputs { have_dbus: false, ..all };
    match classify_probe(no_dbus) {
        ProbeState::Degraded { usable, missing } => {
            assert_eq!(usable, vec![BackendId::ClipboardWayland]);
            assert_eq!(missing, vec![("dbus", "DBUS_SESSION_BUS_ADDRESS not set")]);
        }
        _ => panic!("expected degraded"),
    }
    let nothing = ProbeInputs { have_x: false, have_wayland: false, have_dbus: false, atspi_registry_ok: false, wl_paste_ok: false, xclip_ok: false };
    match classify_probe(nothing) {
        ProbeState::Missing { causes } => assert_eq!(causes.len(), 2),
        _ => panic!("expected missing"),
    }
}

#[test]
fn small_injectors() {
    let config = InjectionConfig::default();
    let noop = NoOpInjector::new(config.clone());
    assert!(noop.is_available());
    assert_eq!(noop.backend_id(), BackendId::Fallback);
    assert_eq!(noop.outcome(3).latency_ms, 3);
    let mki = MkiInjector::new(config.clone(), true, Some(0o660));
    assert!(!mki.is_available());
    assert_eq!(mki.inject_text(""), Ok(()));
    assert_eq!(mki.inject_text("x"), Err(InjectionError::MethodNotAvailable("MKI not allowed".to_string())));
    let allowed = InjectionConfig { allow_mki: true, ..Default::default() };
    let mki = MkiInjector::new(allowed.clone(), true, Some(0o660));
    assert!(mki.is_available());
    assert_eq!(mki.inject_text("x"), Err(InjectionError::MethodUnavailable("MKI feature not enabled".to_string())));
    assert_eq!(mki.backend_info()[3], ("allowed", "true".to_string()));
    assert!(!MkiInjector::new(allowed.clone(), true, Some(0o600)).is_available());
    assert!(MkiInjector::new(allowed, true, Some(0o606)).is_available());
    let kd = KdotoolInjector::new(InjectionConfig { allow_kdotool: true, ..Default::default() }, true);
    assert!(kd.is_available());
    assert_eq!(kd.backend_name(), "Kdotool");
    assert!(kd.inject_text("x").is_err());
    let yd = YdotoolInjector::new(config.clone());
    assert!(!YdotoolInjector::ydotool_runtime_available());
    assert!(!yd.is_available());
    assert_eq!(yd.backend_name(), "ydotool");
    assert_eq!(
        yd.inject_text("x"),
        Err(InjectionError::MethodUnavailable("ydotool is not available on this platform".to_string()))
    );
    let on_linux = YdotoolInjector::on_platform(config, "linux".to_string());
    assert_eq!(on_linux.backend_name(), "ydotool");
    assert_eq!(on_linux.backend_info(), vec![("platform", "linux".to_string())]);
}

#[test]
fn atspi_decisions() {
    let names = vec!["Copy".to_string(), "PASTE special".to_string(), "paste".to_string()];
    assert_eq!(find_paste_action(&names), Some(1));
    assert_eq!(find_paste_action(&vec!["cut".to_string()]), None);
    let config = InjectionConfig::default();
    assert!(atspi_use_paste(Some(InjectionMode::Paste), &config, 1));
    assert!(!atspi_use_paste(Some(InjectionMode::Keystroke), &config, 10_000));
    assert!(atspi_use_paste(None, &config, 501));
    assert!(!atspi_use_paste(None, &config, 500));
    let typed = InjectionConfig { injection_mode: "keystroke".to_string(), ..Default::default() };
    assert!(!atspi_use_paste(None, &typed, 10_000));
}

#[test]
fn focus_adapter_and_clipboard() {
    let a = SystemFocusAdapter;
    assert_eq!(a.status_from_answer(FocusQueryAnswer::Focused { editable: true }), FocusStatus::EditableText);
    assert_eq!(a.status_from_answer(FocusQueryAnswer::Focused { editable: false }), FocusStatus::NonEditable);
    assert_eq!(a.status_from_answer(FocusQueryAnswer::NoFocusedElement), FocusStatus::Unknown);
    assert_eq!(a.status_from_answer(FocusQueryAnswer::Unreachable), FocusStatus::Unknown);
    let ctx = Context::default();
    assert!(ctx.clipboard_backup.is_none() && ctx.target_app.is_none() && ctx.window_id.is_none());
    let b = ClipboardBackup::new(b"abc".to_vec(), "text/plain".to_string());
    assert!(b.is_valid(std::time::Duration::from_secs(60)));
    let env = EnvironmentProbe { wayland_display: true, display: true, ..linux_probe() };
    assert_eq!(detect_clipboard_backend(&env), coldvox_text_injection::clipboard::ClipboardBackend::Wayland);
    assert_eq!(paste_outcome(ClipboardInjectionMode::Strict, Err(InjectionError::Timeout(1))), Err(InjectionError::Timeout(1)));
    assert_eq!(paste_outcome(ClipboardInjectionMode::BestEffort, Err(InjectionError::Timeout(1))), Ok(()));
    assert_eq!(paste_outcome(ClipboardInjectionMode::Strict, Ok("ydotool")), Ok(()));
    assert_eq!(restore_delay_ms(&InjectionConfig { clipboard_restore_delay_ms: None, ..Default::default() }), 500);
}

#[test]
fn error_messages() {
    assert_eq!(InjectionError::Timeout(250).message(), "Timeout after 250ms");
    assert_eq!(InjectionError::MethodFailed("x".to_string()).message(), "Method failed: x");
    assert_eq!(InjectionError::Other("plain".to_string()).message(), "plain");
    assert_eq!(PipelineError::Io { backend: BackendId::Atspi, msg: "m".to_string() }.kind(), "Io");
}
