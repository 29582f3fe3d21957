use coldvox_text_injection::backend::{any_session_backend, Backend, BackendDetector};
use coldvox_text_injection::backend_plan::plan_backends;
use coldvox_text_injection::detection::{detect_display_protocol, DisplayProtocol};
use coldvox_text_injection::env::{EnvironmentProbe, TargetOs};
use coldvox_text_injection::types::{InjectionConfig, InjectionMethod};

fn linux_probe() -> EnvironmentProbe {
    EnvironmentProbe {
        xdg_session_type: None,
        wayland_display: false,
        display: false,
        xdg_current_desktop: None,
        kde_session_version: false,
        hyprland_instance_signature: false,
        target_os: TargetOs::Linux,
        xdg_desktop_portal_running: false,
        wlr_virtual_keyboard_available: false,
        xdotool_available: false,
    }
}

fn x11_desktop() -> EnvironmentProbe {
    EnvironmentProbe {
        xdg_session_type: Some("x11".to_string()),
        display: true,
        ..linux_probe()
    }
}

#[test]
fn backend_test_backend_detection() {
    let config = InjectionConfig::default();
    let detector = BackendDetector::new(config);
    let env = x11_desktop();

    let backends = detector.detect_available_backends(&env);
    assert!(!backends.is_empty());

    if let Some(preferred) = detector.get_preferred_backend(&env) {
        assert!(backends.contains(&preferred));
    }
}

#[test]
fn test_preferred_order() {
    let order = BackendDetector::preferred_order();
    assert_eq!(order[0], Backend::WaylandXdgDesktopPortal);
    assert_eq!(order[1], Backend::WaylandVirtualKeyboard);
    assert_eq!(order[2], Backend::X11Xdotool);
    assert_eq!(order[3], Backend::X11Native);
}

#[test]
fn test_plan_with_wayland_backend() {
    let config = InjectionConfig::default();
    let plan = plan_backends(&config, &vec![Backend::WaylandXdgDesktopPortal]);
    let expected = vec![
        InjectionMethod::AtspiInsert,
        InjectionMethod::ClipboardAndPaste,
        InjectionMethod::Clipboard,
        InjectionMethod::NoOp,
    ];
    assert_eq!(plan, expected);
}

#[test]
fn test_plan_with_x11_backend() {
    let config = InjectionConfig::default();
    let plan = plan_backends(&config, &vec![Backend::X11Native]);
    let expected = vec![
        InjectionMethod::AtspiInsert,
        InjectionMethod::ClipboardAndPaste,
        InjectionMethod::Clipboard,
        InjectionMethod::NoOp,
    ];
    assert_eq!(plan, expected);
}

#[test]
fn test_plan_with_optional_backends_enabled() {
    let config = InjectionConfig {
        allow_ydotool: true,
        allow_enigo: true,
        allow_kdotool: true,
        ..Default::default()
    };
    let plan = plan_backends(&config, &vec![Backend::WaylandVirtualKeyboard]);
    let expected = vec![
        InjectionMethod::AtspiInsert,
        InjectionMethod::ClipboardAndPaste,
        InjectionMethod::Clipboard,
        InjectionMethod::KdoToolAssist,
        InjectionMethod::EnigoText,
        InjectionMethod::YdoToolPaste,
        InjectionMethod::NoOp,
    ];
    assert_eq!(plan, expected);
}

#[test]
fn test_plan_with_no_desktop_backend() {
    let config = InjectionConfig {
        allow_ydotool: true,
        ..Default::default()
    };
    let plan = plan_backends(&config, &vec![]);
    let expected = vec![InjectionMethod::YdoToolPaste, InjectionMethod::NoOp];
    assert_eq!(plan, expected);
}

#[test]
fn test_plan_deduplication() {
    let config = InjectionConfig::default();
    let plan = plan_backends(&config, &vec![Backend::WaylandXdgDesktopPortal, Backend::X11Native]);
    let expected = vec![
        InjectionMethod::AtspiInsert,
        InjectionMethod::ClipboardAndPaste,
        InjectionMethod::Clipboard,
        InjectionMethod::NoOp,
    ];
    assert_eq!(plan, expected);
}

#[test]
fn plan_with_clipboard_only_backends_has_no_desktop_chain() {
    let config = InjectionConfig::default();
    let plan = plan_backends(&config, &vec![Backend::MacPasteboard, Backend::WindowsClipboard]);
    assert_eq!(plan, vec![InjectionMethod::NoOp]);
    let plan = plan_backends(&config, &vec![Backend::MacCgEvent]);
    assert_eq!(plan.len(), 4);
}

#[test]
fn test_display_protocol_is_wayland() {
    assert!(DisplayProtocol::Wayland.is_wayland());
    assert!(!DisplayProtocol::X11.is_wayland());
    assert!(!DisplayProtocol::Unknown.is_wayland());
}

#[test]
fn test_display_protocol_is_x11() {
    assert!(!DisplayProtocol::Wayland.is_x11());
    assert!(DisplayProtocol::X11.is_x11());
    assert!(!DisplayProtocol::Unknown.is_x11());
}

#[test]
fn test_display_protocol_is_xwayland() {
    let env = linux_probe();
    assert!(!DisplayProtocol::Wayland.is_xwayland(&env));
    assert!(!DisplayProtocol::X11.is_xwayland(&env));
    assert!(!DisplayProtocol::Unknown.is_xwayland(&env));
}

#[test]
fn xwayland_when_x11_inside_wayland_session() {
    let env = EnvironmentProbe { wayland_display: true, display: true, ..linux_probe() };
    assert!(DisplayProtocol::X11.is_xwayland(&env));
    assert!(!DisplayProtocol::Wayland.is_xwayland(&env));
}

#[test]
fn test_detect_display_protocol_unknown() {
    assert_eq!(detect_display_protocol(&linux_probe()), DisplayProtocol::Unknown);
}

#[test]
fn test_detect_display_protocol_xdg_session_type() {
    let env = EnvironmentProbe { xdg_session_type: Some("wayland".to_string()), ..linux_probe() };
    assert_eq!(detect_display_protocol(&env), DisplayProtocol::Wayland);
    let env = EnvironmentProbe { xdg_session_type: Some("x11".to_string()), ..linux_probe() };
    assert_eq!(detect_display_protocol(&env), DisplayProtocol::X11);
    let env = EnvironmentProbe { xdg_session_type: Some("unknown".to_string()), ..linux_probe() };
    assert_eq!(detect_display_protocol(&env), DisplayProtocol::Unknown);
}

#[test]
fn detect_display_protocol_session_type_any_case() {
    let env = EnvironmentProbe { xdg_session_type: Some("Wayland".to_string()), ..linux_probe() };
    assert_eq!(detect_display_protocol(&env), DisplayProtocol::Wayland);
    let env = EnvironmentProbe { xdg_session_type: Some("X11".to_string()), display: false, ..linux_probe() };
    assert_eq!(detect_display_protocol(&env), DisplayProtocol::X11);
}

#[test]
fn test_detect_display_protocol_wayland_display() {
    let env = EnvironmentProbe { wayland_display: true, ..linux_probe() };
    assert_eq!(detect_display_protocol(&env), DisplayProtocol::Wayland);
}

#[test]
fn test_detect_display_protocol_display() {
    let env = EnvironmentProbe { display: true, ..linux_probe() };
    assert_eq!(detect_display_protocol(&env), DisplayProtocol::X11);
}

#[test]
fn available_backends_on_wayland_with_portal() {
    let detector = BackendDetector::new(InjectionConfig::default());
    let env = EnvironmentProbe {
        wayland_display: true,
        xdg_desktop_portal_running: true,
        wlr_virtual_keyboard_available: true,
        ..linux_probe()
    };
    assert_eq!(
        detector.detect_available_backends(&env),
        vec![Backend::WaylandXdgDesktopPortal, Backend::WaylandVirtualKeyboard]
    );
    assert_eq!(detector.get_preferred_backend(&env), Some(Backend::WaylandXdgDesktopPortal));
}

#[test]
fn no_backend_without_display() {
    let detector = BackendDetector::new(InjectionConfig::default());
    let env = linux_probe();
    assert!(detector.detect_available_backends(&env).is_empty());
    assert_eq!(detector.get_preferred_backend(&env), None);
}

#[test]
fn windows_and_macos_backends() {
    let detector = BackendDetector::new(InjectionConfig::default());
    let env = EnvironmentProbe { target_os: TargetOs::Windows, ..linux_probe() };
    assert_eq!(
        detector.detect_available_backends(&env),
        vec![Backend::WindowsSendInput, Backend::WindowsClipboard]
    );
    assert!(detector.is_windows(&env));
    assert!(!detector.is_macos(&env));
    let env = EnvironmentProbe { target_os: TargetOs::MacOs, ..linux_probe() };
    assert_eq!(detector.get_preferred_backend(&env), Some(Backend::MacCgEvent));
    assert!(detector.is_macos(&env));
}

#[test]
fn x11_with_xdotool_prefers_xdotool() {
    let detector = BackendDetector::new(InjectionConfig::default());
    let env = EnvironmentProbe { xdotool_available: true, ..x11_desktop() };
    assert_eq!(detector.detect_available_backends(&env), vec![Backend::X11Xdotool, Backend::X11Native]);
    assert_eq!(detector.get_preferred_backend(&env), Some(Backend::X11Xdotool));
}

#[test]
fn backend_detection_matches_session_type_exactly() {
    let detector = BackendDetector::new(InjectionConfig::default());
    let upper = EnvironmentProbe { xdg_session_type: Some("X11".to_string()), ..linux_probe() };
    assert!(!detector.detect_available_backends(&upper).contains(&Backend::X11Native));
    let lower = EnvironmentProbe { xdg_session_type: Some("x11".to_string()), ..linux_probe() };
    assert_eq!(detector.detect_available_backends(&lower), vec![Backend::X11Native]);
    let wayland_upper = EnvironmentProbe {
        xdg_session_type: Some("Wayland".to_string()),
        xdg_desktop_portal_running: true,
        ..linux_probe()
    };
    assert!(detector.detect_available_backends(&wayland_upper).is_empty());
}

#[test]
fn session_backend_presence() {
    assert!(!any_session_backend(&vec![]));
    assert!(!any_session_backend(&vec![Backend::MacCgEvent, Backend::WindowsClipboard]));
    assert!(any_session_backend(&vec![Backend::MacCgEvent, Backend::X11Native]));
    assert!(any_session_backend(&vec![Backend::WaylandVirtualKeyboard]));
}
