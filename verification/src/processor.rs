//! The injection processor: it feeds transcription events into the
//! dictation session, hands the buffered text over when the session is
//! ready, and keeps the processor's own counters. The caller runs the
//! injection and reports its result back.

use crate::session::{after_inject_check, InjectionSession, SessionConfig, SessionState};
use crate::text::{joined, trim, utf8_len};
use crate::types::{InjectionConfig, InjectionMetrics};
use std::time::Instant;
use crate::time::instant_now;
use vstd::prelude::*;
use vstd::string::StringExecFns;
use vstd::utf8::{decode_utf8, encode_utf8, is_char_boundary};

verus! {

/// Pipeline metrics shared with the application.
#[derive(Debug, Clone, Default)]
pub struct PipelineMetrics {
    pub processed_events: u64,
    pub injection_latency_ms: u64,
}

/// An event of the speech-to-text stage.
#[derive(Debug, Clone)]
pub enum TranscriptionEvent {
    /// An interim hypothesis of an utterance.
    Partial { utterance_id: u64, text: String },
    /// The final text of an utterance.
    Final { utterance_id: u64, text: String },
    /// The recogniser reported an error.
    Error { code: String, message: String },
}

/// The processor's view of the session, for display.
#[derive(Debug, Clone)]
pub struct ProcessorMetrics {
    pub session_state: SessionState,
    /// Number of buffered transcriptions.
    pub buffer_size: usize,
    /// Size of the joined buffer in UTF-8 bytes.
    pub buffer_chars: usize,
    /// Milliseconds since the last transcription.
    pub time_since_last_transcription_ms: Option<u64>,
    pub successful_injections: u64,
    pub failed_injections: u64,
    pub last_injection_time: Option<Instant>,
}

impl ProcessorMetrics {
    /// Idle, empty, nothing injected.
    pub fn new() -> (m: Self)
        ensures
            m.session_state == SessionState::Idle,
            m.buffer_size == 0 && m.buffer_chars == 0,
            m.time_since_last_transcription_ms is None,
            m.successful_injections == 0 && m.failed_injections == 0,
            m.last_injection_time is None,
    {
        ProcessorMetrics {
            session_state: SessionState::Idle,
            buffer_size: 0,
            buffer_chars: 0,
            time_since_last_transcription_ms: None,
            successful_injections: 0,
            failed_injections: 0,
            last_injection_time: None,
        }
    }

    /// Refreshes the session fields from `session`.
    pub fn update_from_session(&mut self, session: &InjectionSession)
        requires
            session.wf(),
        ensures
            final(self).session_state == session.spec_state(),
            final(self).buffer_size == session.spec_items().len(),
            final(self).buffer_chars == utf8_len(session.spec_preview()),
            final(self).time_since_last_transcription_ms is Some == session.spec_has_last(),
            final(self).successful_injections == old(self).successful_injections,
            final(self).failed_injections == old(self).failed_injections,
            final(self).last_injection_time == old(self).last_injection_time,
    {
        self.session_state = session.state();
        self.buffer_size = session.buffer_len();
        self.buffer_chars = session.total_chars();
        self.time_since_last_transcription_ms = session.since_last_ms();
    }
}

/// Longest buffer preview, in bytes, before it is cut.
pub const PREVIEW_LIMIT: usize = 100;

/// A preview of `text`: itself, or its first `PREVIEW_LIMIT` bytes and "...".
pub open spec fn preview_spec(text: Seq<char>) -> Seq<char> {
    let b = encode_utf8(text);
    if b.len() > PREVIEW_LIMIT {
        decode_utf8(b.subrange(0, PREVIEW_LIMIT as int)) + "..."@
    } else {
        text
    }
}

/// What `prepare_injection` did, given `since` (the milliseconds since the
/// last transcription that the session's checks read): the checks of
/// `after_inject_check` move the session on; when they say to inject, the
/// buffer is taken (the session is idle and empty) and its text returned
/// unless it is empty.
pub open spec fn prepared(s0: InjectionSession, s1: InjectionSession, since: Option<u64>, r: Option<String>) -> bool {
    let (state, go) = after_inject_check(
        s0.spec_state(),
        s0.spec_items().len(),
        since,
        s0.spec_pause_timeout_ms(),
        s0.spec_silence_timeout_ms(),
    );
    &&& (r is Some) == (go && s0.spec_preview().len() > 0)
    &&& (r matches Some(t) ==> t@ == s0.spec_preview())
    &&& (go ==> s1.spec_state() == SessionState::Idle && s1.spec_items().len() == 0)
    &&& (!go ==> s1.spec_state() == state && s1.spec_items() == s0.spec_items())
}

/// Manages session-based text injection.
pub struct InjectionProcessor {
    session: InjectionSession,
    config: InjectionConfig,
    metrics: ProcessorMetrics,
}

impl InjectionProcessor {
    pub closed spec fn spec_session(&self) -> InjectionSession {
        self.session
    }

    pub closed spec fn spec_metrics(&self) -> ProcessorMetrics {
        self.metrics
    }

    pub closed spec fn spec_config(&self) -> InjectionConfig {
        self.config
    }

    pub closed spec fn wf(&self) -> bool {
        self.session.wf()
    }

    /// A processor with a default session that counts into `injection_metrics`.
    pub fn new(config: InjectionConfig, injection_metrics: InjectionMetrics) -> (p: Self)
        requires
            injection_metrics.wf(),
        ensures
            p.wf(),
            p.spec_config() == config,
            p.spec_session().spec_state() == SessionState::Idle,
            p.spec_session().spec_items().len() == 0,
            p.spec_session().spec_metrics() == injection_metrics,
            p.spec_metrics().session_state == SessionState::Idle,
            p.spec_metrics().successful_injections == 0,
            p.spec_metrics().failed_injections == 0,
    {
        let session_config = SessionConfig::default();
        proof {
            let sep = session_config.join_separator@;
            assert(utf8_len(sep) <= 4) by {
                reveal_strlit(" ");
                assert(sep =~= seq![' ']);
                assert(sep.drop_first() =~= Seq::<char>::empty());
                assert(encode_utf8(sep.drop_first()).len() == 0);
                assert(encode_utf8(sep) == vstd::utf8::encode_scalar(sep[0] as u32) + encode_utf8(sep.drop_first()));
                assert(vstd::utf8::encode_scalar(sep[0] as u32).len() <= 4);
            }
        }
        let session = InjectionSession::new(session_config, injection_metrics);
        InjectionProcessor { session, config, metrics: ProcessorMetrics::new() }
    }

    /// Asks the session whether to inject now (its pause and silence checks
    /// read the clock; a session ready to inject answers yes without it).
    /// When it does, the buffer is taken and its text returned unless it is
    /// empty; otherwise the session only moves on as the checks say.
    pub fn prepare_injection(&mut self) -> (r: Option<String>)
        requires
            old(self).wf(),
        ensures
            final(self).wf(),
            exists|since: Option<u64>|
                since is Some == old(self).spec_session().spec_has_last() && #[trigger] prepared(
                    old(self).spec_session(),
                    final(self).spec_session(),
                    since,
                    r,
                ),
            final(self).spec_metrics() == old(self).spec_metrics(),
            final(self).spec_config() == old(self).spec_config(),
    {
        let ghost s0 = self.session;
        let go = self.session.should_inject();
        let ghost since = choose|since: Option<u64>|
            since is Some == s0.spec_has_last() && (self.session.spec_state(), go) == #[trigger] after_inject_check(
                s0.spec_state(),
                s0.spec_items().len(),
                since,
                s0.spec_pause_timeout_ms(),
                s0.spec_silence_timeout_ms(),
            );
        let ghost s_mid = self.session;
        if go {
            let text = self.session.take_buffer();
            assert(s_mid.spec_preview() == s0.spec_preview());
            if !text.as_str().is_empty() {
                assert(prepared(old(self).spec_session(), self.spec_session(), since, Some(text)));
                return Some(text);
            }
            assert(prepared(old(self).spec_session(), self.spec_session(), since, None));
            return None;
        }
        assert(prepared(old(self).spec_session(), self.spec_session(), since, None));
        None
    }

    /// Counts the result of an injection and refreshes the session fields.
    pub fn record_injection_result(&mut self, success: bool)
        requires
            old(self).wf(),
        ensures
            final(self).wf(),
            final(self).spec_session() == old(self).spec_session(),
            final(self).spec_config() == old(self).spec_config(),
            final(self).spec_metrics().successful_injections == if success {
                old(self).spec_metrics().successful_injections.saturating_add(1)
            } else {
                old(self).spec_metrics().successful_injections
            },
            final(self).spec_metrics().failed_injections == if success {
                old(self).spec_metrics().failed_injections
            } else {
                old(self).spec_metrics().failed_injections.saturating_add(1)
            },
            success ==> final(self).spec_metrics().last_injection_time is Some,
            !success ==> final(self).spec_metrics().last_injection_time == old(self).spec_metrics().last_injection_time,
            final(self).spec_metrics().session_state == old(self).spec_session().spec_state(),
            final(self).spec_metrics().buffer_size == old(self).spec_session().spec_items().len(),
    {
        if success {
            self.metrics.successful_injections = self.metrics.successful_injections.saturating_add(1);
            self.metrics.last_injection_time = Some(instant_now());
        } else {
            self.metrics.failed_injections = self.metrics.failed_injections.saturating_add(1);
        }
        self.update_metrics();
    }

    /// The processor's counters.
    pub fn metrics(&self) -> (m: ProcessorMetrics)
        ensures
            m.session_state == self.spec_metrics().session_state,
            m.buffer_size == self.spec_metrics().buffer_size,
            m.buffer_chars == self.spec_metrics().buffer_chars,
            m.time_since_last_transcription_ms == self.spec_metrics().time_since_last_transcription_ms,
            m.successful_injections == self.spec_metrics().successful_injections,
            m.failed_injections == self.spec_metrics().failed_injections,
            m.last_injection_time == self.spec_metrics().last_injection_time,
    {
        ProcessorMetrics {
            session_state: self.metrics.session_state,
            buffer_size: self.metrics.buffer_size,
            buffer_chars: self.metrics.buffer_chars,
            time_since_last_transcription_ms: self.metrics.time_since_last_transcription_ms,
            successful_injections: self.metrics.successful_injections,
            failed_injections: self.metrics.failed_injections,
            last_injection_time: self.metrics.last_injection_time,
        }
    }

    /// Handles a transcription event. A final text is buffered in the
    /// session (the session moves on as `add_transcription` says) and its
    /// length in bytes is counted as buffered; a partial text only refreshes
    /// the displayed session fields; an error changes nothing.
    pub fn handle_transcription(&mut self, event: TranscriptionEvent)
        requires
            old(self).wf(),
            event matches TranscriptionEvent::Final { text, .. } ==> old(self).spec_session().fits_after_adding(text@),
        ensures
            final(self).wf(),
            final(self).spec_config() == old(self).spec_config(),
            final(self).spec_metrics().successful_injections == old(self).spec_metrics().successful_injections,
            final(self).spec_metrics().failed_injections == old(self).spec_metrics().failed_injections,
            !(event is Error) ==> final(self).spec_metrics().session_state == final(self).spec_session().spec_state()
                && final(self).spec_metrics().buffer_size == final(self).spec_session().spec_items().len()
                && final(self).spec_metrics().buffer_chars == utf8_len(final(self).spec_session().spec_preview()),
            match event {
                TranscriptionEvent::Final { text, .. } => {
                    let s0 = old(self).spec_session();
                    let s1 = final(self).spec_session();
                    let n = crate::session::normalized_text(text@, s0.spec_normalize());
                    let items = s0.spec_items().push(n);
                    let counted = if trim(text@).len() == 0 {
                        s0.spec_metrics().chars_buffered
                    } else {
                        s0.spec_metrics().chars_buffered.saturating_add(utf8_len(n) as u64)
                    };
                    &&& trim(text@).len() == 0 ==> s1.spec_items() == s0.spec_items() && s1.spec_state() == s0.spec_state()
                    &&& trim(text@).len() > 0 ==> s1.spec_items() == items && s1.spec_state() == (if utf8_len(
                        joined(items, s0.spec_separator()),
                    ) > s0.spec_max_buffer_size() {
                        SessionState::ReadyToInject
                    } else if crate::session::ends_with_mark(n, s0.spec_flush_on_punctuation(), s0.spec_punctuation()) {
                        SessionState::ReadyToInject
                    } else {
                        SessionState::Buffering
                    })
                    &&& s1.spec_metrics().chars_buffered == counted.saturating_add(utf8_len(text@) as usize as u64)
                },
                TranscriptionEvent::Partial { .. } => final(self).spec_session() == old(self).spec_session(),
                TranscriptionEvent::Error { .. } => *final(self) == *old(self),
            },
    {
        match event {
            TranscriptionEvent::Final { text, .. } => {
                let ghost t = text@;
                let text_str = text.as_str();
                let text_len = text_str.len();
                assert(text_str@ == t);
                assert(text_len == utf8_len(t) as usize);
                self.session.add_transcription(text);
                self.session.record_buffered_chars(text_len as u64);
                self.update_metrics();
            },
            TranscriptionEvent::Partial { .. } => {
                self.update_metrics();
            },
            TranscriptionEvent::Error { .. } => {},
        }
    }

    /// Takes the buffer for an injection run by the caller: `None` when it
    /// is empty; otherwise the latency since the last transcription (none
    /// is left once the buffer is taken, so 0) is recorded and the
    /// injection counted as started.
    pub fn begin_injection(&mut self) -> (r: Option<String>)
        requires
            old(self).wf(),
        ensures
            final(self).wf(),
            final(self).spec_session().spec_state() == SessionState::Idle,
            final(self).spec_session().spec_items().len() == 0,
            old(self).spec_session().spec_preview().len() == 0 <==> r is None,
            r matches Some(t) ==> t@ == old(self).spec_session().spec_preview()
                && final(self).spec_session().spec_metrics().last_latency_from_final_ms == Some(0u64),
            final(self).spec_metrics() == old(self).spec_metrics(),
    {
        let text = self.session.take_buffer();
        if text.as_str().is_empty() {
            return None;
        }
        let latency = match self.session.since_last_ms() {
            Some(ms) => ms,
            None => 0,
        };
        self.session.record_latency_from_final(latency);
        self.session.update_last_injection();
        Some(text)
    }

    /// Forces the buffered text, if any, to be ready for injection.
    pub fn force_inject(&mut self)
        requires
            old(self).wf(),
        ensures
            final(self).wf(),
            final(self).spec_session().spec_state() == (if old(self).spec_session().spec_items().len() > 0 {
                SessionState::ReadyToInject
            } else {
                old(self).spec_session().spec_state()
            }),
            final(self).spec_session().spec_items() == old(self).spec_session().spec_items(),
            final(self).spec_metrics() == old(self).spec_metrics(),
    {
        if self.session.has_content() {
            self.session.force_inject();
        }
    }

    /// Drops the buffered text.
    pub fn clear_session(&mut self)
        requires
            old(self).wf(),
        ensures
            final(self).wf(),
            final(self).spec_session().spec_state() == SessionState::Idle,
            final(self).spec_session().spec_items().len() == 0,
            final(self).spec_metrics().session_state == SessionState::Idle,
            final(self).spec_metrics().buffer_size == 0,
            final(self).spec_metrics().successful_injections == old(self).spec_metrics().successful_injections,
            final(self).spec_metrics().failed_injections == old(self).spec_metrics().failed_injections,
    {
        self.session.clear();
        self.update_metrics();
    }

    fn update_metrics(&mut self)
        requires
            old(self).wf(),
        ensures
            final(self).wf(),
            final(self).spec_session() == old(self).spec_session(),
            final(self).spec_config() == old(self).spec_config(),
            final(self).spec_metrics().session_state == old(self).spec_session().spec_state(),
            final(self).spec_metrics().buffer_size == old(self).spec_session().spec_items().len(),
            final(self).spec_metrics().buffer_chars == utf8_len(old(self).spec_session().spec_preview()),
            final(self).spec_metrics().successful_injections == old(self).spec_metrics().successful_injections,
            final(self).spec_metrics().failed_injections == old(self).spec_metrics().failed_injections,
            final(self).spec_metrics().last_injection_time == old(self).spec_metrics().last_injection_time,
    {
        self.metrics.update_from_session(&self.session);
    }

    /// The current session state.
    pub fn session_state(&self) -> (s: SessionState)
        ensures
            s == self.spec_session().spec_state(),
    {
        self.session.state()
    }

    /// A preview of the buffered text, cut after `PREVIEW_LIMIT` bytes (a
    /// cut inside a character is not allowed).
    pub fn buffer_preview(&self) -> (p: String)
        requires
            self.wf(),
            utf8_len(self.spec_session().spec_preview()) > PREVIEW_LIMIT ==> is_char_boundary(
                encode_utf8(self.spec_session().spec_preview()),
                PREVIEW_LIMIT as int,
            ),
        ensures
            p@ == preview_spec(self.spec_session().spec_preview()),
    {
        let text = self.session.buffer_preview();
        let t = text.as_str();
        proof {
            assert(utf8_len(t@) <= usize::MAX) by {
                self.session.lemma_preview_fits();
            }
        }
        if t.len() > PREVIEW_LIMIT {
            let (head, _) = t.split_at(PREVIEW_LIMIT);
            proof {
                vstd::utf8::encode_utf8_decode_utf8(head@);
                assert(head@ == decode_utf8(encode_utf8(t@).subrange(0, PREVIEW_LIMIT as int)));
            }
            String::from_str(head).concat("...")
        } else {
            text
        }
    }

    /// The last partial transcription; partial texts are not kept.
    pub fn last_partial_text(&self) -> (r: Option<String>)
        ensures
            r is None,
    {
        None
    }

    /// The session, for inspection.
    pub fn session(&self) -> (s: &InjectionSession)
        ensures
            *s == self.spec_session(),
    {
        &self.session
    }

    /// The session, for the caller's timed checks.
    pub fn session_mut(&mut self) -> (s: &mut InjectionSession)
        requires
            old(self).wf(),
        ensures
            *s == old(self).spec_session(),
            final(s).wf() ==> final(self).wf(),
            final(self).spec_session() == *final(s),
            final(self).spec_metrics() == old(self).spec_metrics(),
            final(self).spec_config() == old(self).spec_config(),
    {
        &mut self.session
    }
}

} // verus!
