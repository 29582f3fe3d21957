use coldvox_text_injection::session::{InjectionSession, SessionConfig, SessionState};
use coldvox_text_injection::types::InjectionMetrics;

#[test]
fn test_session_state_transitions() {
    let config = SessionConfig {
        silence_timeout_ms: 100,
        buffer_pause_timeout_ms: 50,
        ..Default::default()
    };
    let mut session = InjectionSession::new(config, InjectionMetrics::new());
    assert_eq!(session.state(), SessionState::Idle);
    assert!(!session.has_content());

    session.add_transcription("Hello".to_string());
    assert_eq!(session.state(), SessionState::Buffering);
    assert!(session.has_content());
    assert_eq!(session.buffer_len(), 1);

    session.add_transcription("world".to_string());
    assert_eq!(session.state(), SessionState::Buffering);
    assert_eq!(session.buffer_len(), 2);

    session.check_for_silence_transition_after(Some(75));
    assert_eq!(session.state(), SessionState::WaitingForSilence);

    assert!(session.should_inject_after(Some(150)));
    assert_eq!(session.state(), SessionState::ReadyToInject);

    let text = session.take_buffer();
    assert_eq!(text, "Hello world");
    assert_eq!(session.state(), SessionState::Idle);
    assert!(!session.has_content());
}

#[test]
fn test_buffer_size_limit() {
    let config = SessionConfig { max_buffer_size: 10, ..Default::default() };
    let mut session = InjectionSession::new(config, InjectionMetrics::new());
    session.add_transcription("This is a long sentence".to_string());
    assert_eq!(session.state(), SessionState::ReadyToInject);
}

#[test]
fn test_empty_transcription_filtering() {
    let mut session = InjectionSession::new(SessionConfig::default(), InjectionMetrics::new());
    session.add_transcription("".to_string());
    session.add_transcription("   ".to_string());
    session.add_transcription("Hello".to_string());
    assert_eq!(session.buffer_len(), 1);
    assert_eq!(session.take_buffer(), "Hello");
}

#[test]
fn test_silence_detection() {
    let config = SessionConfig {
        silence_timeout_ms: 200,
        buffer_pause_timeout_ms: 50,
        ..Default::default()
    };
    let mut session = InjectionSession::new(config, InjectionMetrics::new());
    session.add_transcription("Test".to_string());
    assert_eq!(session.state(), SessionState::Buffering);

    session.check_for_silence_transition_after(Some(75));
    assert_eq!(session.state(), SessionState::WaitingForSilence);

    session.add_transcription("Another".to_string());
    assert_eq!(session.state(), SessionState::Buffering);

    session.check_for_silence_transition_after(Some(75));
    assert_eq!(session.state(), SessionState::WaitingForSilence);
}

#[test]
fn punctuation_flushes_and_whitespace_is_collapsed() {
    let config = SessionConfig { buffer_pause_timeout_ms: 10_000, silence_timeout_ms: 10_000, ..Default::default() };
    let mut session = InjectionSession::new(config, InjectionMetrics::new());
    session.add_transcription("  hello   there  ".to_string());
    assert_eq!(session.state(), SessionState::Buffering);
    session.add_transcription("done.".to_string());
    assert_eq!(session.state(), SessionState::ReadyToInject);
    assert_eq!(session.buffer_preview(), "hello there done.");
    assert_eq!(session.total_chars(), 17);
    let text = session.take_buffer();
    assert_eq!(text, "hello there done.");
    assert_eq!(session.metrics().flushes, 1);
    assert_eq!(session.metrics().last_flush_size, 17);
}

#[test]
fn no_injection_before_silence() {
    let config = SessionConfig { buffer_pause_timeout_ms: 50, silence_timeout_ms: 200, ..Default::default() };
    let mut session = InjectionSession::new(config, InjectionMetrics::new());
    session.add_transcription("Test".to_string());
    assert!(!session.should_inject_after(Some(10)));
    assert_eq!(session.state(), SessionState::Buffering);
    session.check_for_silence_transition_after(Some(60));
    assert!(!session.should_inject_after(Some(100)));
    assert_eq!(session.state(), SessionState::WaitingForSilence);
}

#[test]
fn clear_and_force_inject() {
    let mut session = InjectionSession::new(SessionConfig::default(), InjectionMetrics::new());
    session.force_inject();
    assert_eq!(session.state(), SessionState::Idle);
    session.add_transcription("keep".to_string());
    session.force_inject();
    assert_eq!(session.state(), SessionState::ReadyToInject);
    session.clear();
    assert_eq!(session.state(), SessionState::Idle);
    assert_eq!(session.buffer_len(), 0);
}

#[test]
fn state_labels() {
    assert_eq!(SessionState::Idle.label(), "IDLE");
    assert_eq!(SessionState::Buffering.label(), "BUFFERING");
    assert_eq!(SessionState::WaitingForSilence.label(), "WAITING_FOR_SILENCE");
    assert_eq!(SessionState::ReadyToInject.label(), "READY_TO_INJECT");
}

#[test]
fn session_gives_back_what_it_was_given() {
    let config = SessionConfig { flush_on_punctuation: false, ..Default::default() };
    let mut session = InjectionSession::new(config, InjectionMetrics::new());
    for text in ["  hello", "   ", "big \t  wide", "", "world\n"] {
        session.add_transcription(text.to_string());
    }
    assert_eq!(session.buffer_len(), 3);
    assert_eq!(session.take_buffer(), "hello big wide world");
    assert_eq!(session.state(), SessionState::Idle);
    session.add_transcription("again".to_string());
    assert_eq!(session.take_buffer(), "again");
}

#[test]
fn ordinary_transcriptions_have_room() {
    let mut session = InjectionSession::new(SessionConfig::default(), InjectionMetrics::new());
    assert!(session.has_room_for("Hello world"));
    assert!(session.has_room_for("   "));
    session.add_transcription("Hello".to_string());
    assert!(session.has_room_for(" world "));
    assert_eq!(session.total_chars(), 5);
}
