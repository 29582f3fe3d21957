use std::hash::Hash;
use std::hash::Hasher;
use coldvox_text_injection::logging::{
    display_text, format_hex8, log_injection_attempt, log_injection_failure, log_injection_success,
    log_method_availability, redact_text, LogLevel, LoggingConfig,
};
use coldvox_text_injection::prewarm::mime_to_string;
use coldvox_text_injection::types::InjectionMethod;

#[test]
fn test_logging_config_default() {
    let config = LoggingConfig::default();
    assert_eq!(config.level, "INFO".to_string());
    assert!(!config.include_target);
    assert!(config.include_thread_id);
    assert!(config.include_file);
    assert!(config.include_line_number);
    assert!(config.redact_text);
}

#[test]
fn test_log_injection_attempt() {
    let plain = log_injection_attempt(InjectionMethod::NoOp, "test text", false);
    assert_eq!(plain.text_preview.as_deref(), Some("test text"));
    assert_eq!(plain.text_length, 9);
    let redacted = log_injection_attempt(
        InjectionMethod::NoOp,
        "very long test text that should be redacted",
        true,
    );
    let preview = redacted.text_preview.unwrap();
    assert!(preview.starts_with("[REDACTED] len=43 hash="));
    assert!(!preview.contains("redacted"));
}

#[test]
fn test_mime_to_string() {
    assert_eq!(mime_to_string("text"), "text/plain");
    assert_eq!(mime_to_string("image"), "image/png");
    assert_eq!(mime_to_string("application/json"), "application/json");
}

#[test]
fn tracing_level_parses_names_and_numbers() {
    let mut config = LoggingConfig::default();
    assert_eq!(config.tracing_level(), LogLevel::Info);
    config.level = "debug".to_string();
    assert_eq!(config.tracing_level(), LogLevel::Debug);
    config.level = "WARN".to_string();
    assert_eq!(config.tracing_level(), LogLevel::Warn);
    config.level = "5".to_string();
    assert_eq!(config.tracing_level(), LogLevel::Trace);
    config.level = "1".to_string();
    assert_eq!(config.tracing_level(), LogLevel::Error);
    config.level = "verbose".to_string();
    assert_eq!(config.tracing_level(), LogLevel::Info);
    config.level = "+2".to_string();
    assert_eq!(config.tracing_level(), LogLevel::Warn);
    config.level = "004".to_string();
    assert_eq!(config.tracing_level(), LogLevel::Debug);
    config.level = "6".to_string();
    assert_eq!(config.tracing_level(), LogLevel::Info);
    config.level = "0".to_string();
    assert_eq!(config.tracing_level(), LogLevel::Info);
    config.level = " error".to_string();
    assert_eq!(config.tracing_level(), LogLevel::Info);
    config.level = "ErRoR".to_string();
    assert_eq!(config.tracing_level(), LogLevel::Error);
}

#[test]
fn hex8_is_zero_padded_lowercase() {
    assert_eq!(format_hex8(0), "00000000");
    assert_eq!(format_hex8(0xdeadbeef), "deadbeef");
    assert_eq!(format_hex8(0x1a), "0000001a");
    assert_eq!(format_hex8(u32::MAX), "ffffffff");
}

#[test]
fn redaction_hides_text() {
    assert_eq!(display_text("hello", false), "hello");
    let shown = display_text("hello", true);
    assert!(shown.starts_with("[REDACTED] len=5 hash="));
    assert_eq!(shown.len(), "[REDACTED] len=5 hash=".len() + 8);
    assert_eq!(redact_text("secret", false), "secret");
    let r = redact_text("secret", true);
    assert!(r.starts_with("len=6 hash="));
    assert_eq!(r.len(), "len=6 hash=".len() + 8);
}

#[test]
fn redacted_hash_is_stable_within_a_process() {
    assert_eq!(display_text("same text", true), display_text("same text", true));
}

#[test]
fn success_failure_and_availability_records() {
    let s = log_injection_success(InjectionMethod::AtspiInsert, "abc", 12, false);
    assert_eq!(s.level, LogLevel::Info);
    assert_eq!(s.duration_ms, Some(12));
    assert_eq!(s.message, "Text injection completed successfully");
    let f = log_injection_failure(InjectionMethod::EnigoText, "abc", "boom", 7, true);
    assert_eq!(f.level, LogLevel::Warn);
    assert_eq!(f.error.as_deref(), Some("boom"));
    assert!(f.text_preview.unwrap().starts_with("[REDACTED] len=3"));
    let a = log_method_availability(InjectionMethod::NoOp, true);
    assert_eq!(a.level, LogLevel::Debug);
    assert_eq!(a.available, Some(true));
}

#[test]
fn redacted_hash_is_the_str_hash() {
    for text in ["same text", "", "héllo"] {
        let mut hasher = std::collections::hash_map::DefaultHasher::new();
        text.hash(&mut hasher);
        let expected = format!("[REDACTED] len={} hash={:08x}", text.len(), hasher.finish() as u32);
        assert_eq!(display_text(text, true), expected);
    }
}
