use coldvox_text_injection::confirm::{create_confirmation_context, ConfirmationPoller, ConfirmationResult, TextChangeListener};
use coldvox_text_injection::types::InjectionConfig;

#[test]
fn test_extract_prefix() {
    assert_eq!(TextChangeListener::extract_prefix("hello"), "hel");
    assert_eq!(TextChangeListener::extract_prefix("hi"), "hi");
    assert_eq!(TextChangeListener::extract_prefix("a"), "a");
    assert_eq!(TextChangeListener::extract_prefix("café"), "caf");
    assert_eq!(TextChangeListener::extract_prefix("👍🏽test"), "👍🏽te");
    assert_eq!(TextChangeListener::extract_prefix("this is a long text"), "this");
}

#[test]
fn extract_prefix_of_empty_text_is_empty() {
    assert_eq!(TextChangeListener::extract_prefix(""), "");
    assert_eq!(TextChangeListener::extract_prefix("abcdef"), "abc");
    assert_eq!(TextChangeListener::extract_prefix("abcdefg"), "abcd");
}

#[test]
fn test_matches_prefix() {
    assert!(TextChangeListener::matches_prefix("hello", "hel"));
    assert!(TextChangeListener::matches_prefix("café", "caf"));
    assert!(!TextChangeListener::matches_prefix("hello world", "worl"));
    assert!(!TextChangeListener::matches_prefix("test", "xyz"));
    assert!(!TextChangeListener::matches_prefix("anything", ""));
}

#[test]
fn poller_rejects_empty_prefix() {
    match ConfirmationPoller::start("") {
        Err(ConfirmationResult::Error(m)) => assert_eq!(m, "Empty prefix"),
        _ => panic!("expected an error"),
    }
}

#[test]
fn poller_confirms_new_text_with_prefix() {
    let mut p = match ConfirmationPoller::start("hello") {
        Ok(p) => p,
        Err(_) => panic!("expected a poller"),
    };
    p.set_initial_text("Dear ");
    assert!(p.may_poll(0));
    assert!(!p.poll(None));
    assert!(!p.poll(Some("Dear ")));
    assert!(p.poll(Some("Dear hello")));
}

#[test]
fn poller_tracks_changes_that_do_not_match() {
    let mut p = match ConfirmationPoller::start("hello") {
        Ok(p) => p,
        Err(_) => panic!("expected a poller"),
    };
    assert!(!p.poll(Some("xyz")));
    assert!(!p.poll(Some("xy")));
    assert!(!p.poll(Some("xyhello there")));
    assert!(p.poll(Some("xyhello therehello")));
}

#[test]
fn poller_stops_after_budget() {
    let mut p = match ConfirmationPoller::start("abc") {
        Ok(p) => p,
        Err(_) => panic!("expected a poller"),
    };
    assert!(!p.may_poll(75));
    for _ in 0..7 {
        assert!(p.may_poll(10));
        p.poll(None);
    }
    assert!(!p.may_poll(10));
}

#[test]
fn a_text_is_recognised_by_its_own_prefix() {
    for text in ["a", "héllo wörld", "e\u{301}tude", "日本語のテキスト", "👍🏽 ok"] {
        let prefix = TextChangeListener::extract_prefix(text);
        assert!(!prefix.is_empty());
        assert!(text.starts_with(&prefix));
        assert!(TextChangeListener::matches_prefix(text, &prefix));
    }
    assert_eq!(TextChangeListener::extract_prefix("e\u{301}tude"), "e\u{301}tu");
    assert!(ConfirmationPoller::start("x").is_ok());
    let _context = create_confirmation_context(InjectionConfig::default());
}
