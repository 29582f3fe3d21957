//! The dictation session: transcriptions are buffered, normalised and joined,
//! and a small state machine decides when the buffer is handed over for
//! injection (after a pause and a silence period, on punctuation, or when the
//! buffer grows too large).

use crate::text::{
    chars_of, collapse_chars, collapse_ws, join_strings, joined, lemma_joined_push,
    lemma_utf8_len_append, string_from_chars, string_views, trim, trim_chars, utf8_len,
};
use crate::time::{elapsed_duration, elapsed_millis, instant_now};
use crate::types::InjectionMetrics;
use std::time::{Duration, Instant};
use vstd::prelude::*;
use vstd::string::StringExecFns;

verus! {

/// Where a dictation session stands.
#[derive(Debug, Clone, Copy, PartialEq, Eq, Structural)]
pub enum SessionState {
    /// No active session, waiting for the first transcription.
    Idle,
    /// Receiving transcriptions and buffering them.
    Buffering,
    /// No new transcription lately; waiting for the silence timeout.
    WaitingForSilence,
    /// Ready to inject the buffered text.
    ReadyToInject,
}

/// The display label of a state.
pub open spec fn state_label(s: SessionState) -> Seq<char> {
    match s {
        SessionState::Idle => "IDLE"@,
        SessionState::Buffering => "BUFFERING"@,
        SessionState::WaitingForSilence => "WAITING_FOR_SILENCE"@,
        SessionState::ReadyToInject => "READY_TO_INJECT"@,
    }
}

impl Default for SessionState {
    fn default() -> (s: Self)
        ensures
            s == SessionState::Idle,
    {
        SessionState::Idle
    }
}

impl SessionState {
    /// The display label: "IDLE", "BUFFERING", "WAITING_FOR_SILENCE" or "READY_TO_INJECT".
    pub fn label(&self) -> (s: &'static str)
        ensures
            s@ == state_label(*self),
    {
        match self {
            SessionState::Idle => "IDLE",
            SessionState::Buffering => "BUFFERING",
            SessionState::WaitingForSilence => "WAITING_FOR_SILENCE",
            SessionState::ReadyToInject => "READY_TO_INJECT",
        }
    }
}

/// Configuration of session management.
#[derive(Debug, Clone)]
pub struct SessionConfig {
    /// Silence timeout before the buffer is injected.
    pub silence_timeout_ms: u64,
    /// Largest buffer, in UTF-8 bytes of the joined text.
    pub max_buffer_size: usize,
    /// Separator placed between buffered transcriptions.
    pub join_separator: String,
    /// Pause after which a buffering session waits for silence.
    pub buffer_pause_timeout_ms: u64,
    /// Flush when a transcription ends with a punctuation mark.
    pub flush_on_punctuation: bool,
    /// The punctuation marks that flush.
    pub punctuation_marks: Vec<char>,
    /// Collapse runs of whitespace to single spaces.
    pub normalize_whitespace: bool,
}

impl Default for SessionConfig {
    fn default() -> (c: Self)
        ensures
            c.silence_timeout_ms == 0,
            c.max_buffer_size == 5000,
            c.join_separator@ == " "@,
            c.buffer_pause_timeout_ms == 0,
            c.flush_on_punctuation,
            c.punctuation_marks@ == seq!['.', '!', '?', ';'],
            c.normalize_whitespace,
    {
        SessionConfig {
            silence_timeout_ms: 0,
            max_buffer_size: 5000,
            join_separator: String::from_str(" "),
            buffer_pause_timeout_ms: 0,
            flush_on_punctuation: true,
            punctuation_marks: vec!['.', '!', '?', ';'],
            normalize_whitespace: true,
        }
    }
}

/// A transcription after trimming and, when asked for, whitespace collapsing.
pub open spec fn normalized_text(text: Seq<char>, normalize: bool) -> Seq<char> {
    if normalize {
        collapse_ws(trim(text))
    } else {
        trim(text)
    }
}

/// The buffer after the transcriptions `texts` are added in order to
/// `items`: blank ones are dropped, the others normalised and appended.
pub open spec fn items_after_adding(items: Seq<Seq<char>>, texts: Seq<Seq<char>>, normalize: bool) -> Seq<Seq<char>>
    decreases texts.len(),
{
    if texts.len() == 0 {
        items
    } else {
        let prev = items_after_adding(items, texts.drop_last(), normalize);
        if trim(texts.last()).len() == 0 {
            prev
        } else {
            prev.push(normalized_text(texts.last(), normalize))
        }
    }
}

/// What a session gives back of what it was given: starting from an empty
/// buffer (a new, cleared or just taken session), adding the transcriptions
/// `texts` one by one buffers exactly the non-blank ones, normalised, in
/// order, and `take_buffer` then returns them joined by the separator.
pub proof fn lemma_session_reads_back(texts: Seq<Seq<char>>, sep: Seq<char>, normalize: bool)
    ensures
        items_after_adding(Seq::empty(), texts, normalize) == texts.filter(|t: Seq<char>| trim(t).len() > 0).map_values(
            |t: Seq<char>| normalized_text(t, normalize),
        ),
        joined(items_after_adding(Seq::empty(), texts, normalize), sep) == joined(
            texts.filter(|t: Seq<char>| trim(t).len() > 0).map_values(|t: Seq<char>| normalized_text(t, normalize)),
            sep,
        ),
    decreases texts.len(),
{
    reveal(Seq::filter);
    if texts.len() > 0 {
        lemma_session_reads_back(texts.drop_last(), sep, normalize);
        let f = texts.drop_last().filter(|t: Seq<char>| trim(t).len() > 0);
        assert(texts.filter(|t: Seq<char>| trim(t).len() > 0) == if trim(texts.last()).len() > 0 {
            f.push(texts.last())
        } else {
            f
        });
        if trim(texts.last()).len() > 0 {
            assert(f.push(texts.last()).map_values(|t: Seq<char>| normalized_text(t, normalize)) =~= f.map_values(
                |t: Seq<char>| normalized_text(t, normalize),
            ).push(normalized_text(texts.last(), normalize)));
        }
    } else {
        assert(texts.filter(|t: Seq<char>| trim(t).len() > 0).map_values(|t: Seq<char>| normalized_text(t, normalize))
            =~= Seq::<Seq<char>>::empty());
    }
}

/// Whether a normalised transcription ends with one of the flushing marks.
pub open spec fn ends_with_mark(n: Seq<char>, flush: bool, marks: Seq<char>) -> bool {
    flush && n.len() > 0 && marks.contains(n.last())
}

/// Punctuation flushes a transcription only when flushing on punctuation is
/// switched on: with it off no text counts as ending with a flushing mark,
/// and with it on exactly a non-empty text whose last character is one of
/// the marks does.
pub proof fn lemma_punctuation_flush_needs_setting(n: Seq<char>, marks: Seq<char>)
    ensures
        !ends_with_mark(n, false, marks),
        n.len() > 0 && marks.contains(n.last()) ==> ends_with_mark(n, true, marks),
        n.len() == 0 ==> !ends_with_mark(n, true, marks),
{
}

/// The state a buffering session moves to after a pause check, given the
/// milliseconds since the last transcription.
pub open spec fn after_pause_check(s: SessionState, since_last: Option<u64>, pause_ms: u64) -> SessionState {
    if s == SessionState::Buffering && since_last is Some && since_last->0 >= pause_ms {
        SessionState::WaitingForSilence
    } else {
        s
    }
}

/// The state after `should_inject` and its answer.
pub open spec fn after_inject_check(
    s: SessionState,
    buffered: nat,
    since_last: Option<u64>,
    pause_ms: u64,
    silence_ms: u64,
) -> (SessionState, bool) {
    match s {
        SessionState::Buffering => (after_pause_check(s, since_last, pause_ms), false),
        SessionState::WaitingForSilence => if since_last is Some && since_last->0 >= silence_ms {
            (SessionState::ReadyToInject, true)
        } else {
            (s, false)
        },
        SessionState::ReadyToInject => if buffered == 0 {
            (SessionState::Idle, false)
        } else {
            (s, true)
        },
        SessionState::Idle => (s, false),
    }
}

/// One dictation session with buffering and silence detection.
#[derive(Debug)]
pub struct InjectionSession {
    state: SessionState,
    buffer: Vec<String>,
    last_transcription: Option<Instant>,
    buffering_start: Option<Instant>,
    silence_timeout_ms: u64,
    buffer_pause_timeout_ms: u64,
    max_buffer_size: usize,
    join_separator: String,
    flush_on_punctuation: bool,
    punctuation_marks: Vec<char>,
    normalize_whitespace: bool,
    metrics: InjectionMetrics,
}

impl InjectionSession {
    pub closed spec fn spec_state(&self) -> SessionState {
        self.state
    }

    /// The buffered transcriptions.
    pub closed spec fn spec_items(&self) -> Seq<Seq<char>> {
        string_views(self.buffer@)
    }

    pub closed spec fn spec_separator(&self) -> Seq<char> {
        self.join_separator@
    }

    /// A transcription has been received since the last reset.
    pub closed spec fn spec_has_last(&self) -> bool {
        self.last_transcription is Some
    }

    pub closed spec fn spec_silence_timeout_ms(&self) -> u64 {
        self.silence_timeout_ms
    }

    pub closed spec fn spec_pause_timeout_ms(&self) -> u64 {
        self.buffer_pause_timeout_ms
    }

    pub closed spec fn spec_max_buffer_size(&self) -> usize {
        self.max_buffer_size
    }

    pub closed spec fn spec_flush_on_punctuation(&self) -> bool {
        self.flush_on_punctuation
    }

    pub closed spec fn spec_punctuation(&self) -> Seq<char> {
        self.punctuation_marks@
    }

    pub closed spec fn spec_normalize(&self) -> bool {
        self.normalize_whitespace
    }

    pub closed spec fn spec_metrics(&self) -> InjectionMetrics {
        self.metrics
    }

    /// The buffered text as it would be injected.
    pub open spec fn spec_preview(&self) -> Seq<char> {
        joined(self.spec_items(), self.spec_separator())
    }

    /// The session is well formed: it is idle exactly when its buffer is
    /// empty, it remembers a last transcription and a buffering start exactly
    /// when the buffer is not empty, and its joined text fits in memory.
    pub closed spec fn wf(&self) -> bool {
        &&& (self.state == SessionState::Idle) == (self.buffer@.len() == 0)
        &&& (self.last_transcription is Some) == (self.buffer@.len() > 0)
        &&& (self.buffering_start is Some) == (self.buffer@.len() > 0)
        &&& utf8_len(self.spec_preview()) <= usize::MAX
        &&& utf8_len(self.join_separator@) <= usize::MAX
        &&& self.metrics.wf()
    }

    /// In every state that the session's operations reach, the session is
    /// idle exactly when nothing is buffered, and a last transcription is
    /// remembered exactly when something is.
    pub proof fn lemma_idle_iff_empty(&self)
        requires
            self.wf(),
        ensures
            (self.spec_state() == SessionState::Idle) == (self.spec_items().len() == 0),
            self.spec_has_last() == (self.spec_items().len() > 0),
    {
    }

    /// A session is told to inject only when something is buffered, and only
    /// from a state in which it is ready afterwards; an idle session is never
    /// told to inject and stays idle, whatever time has passed.
    pub proof fn lemma_inject_only_with_content(&self, since_last: Option<u64>)
        requires
            self.wf(),
        ensures
            ({
                let (next, inject) = after_inject_check(
                    self.spec_state(),
                    self.spec_items().len(),
                    since_last,
                    self.spec_pause_timeout_ms(),
                    self.spec_silence_timeout_ms(),
                );
                &&& inject ==> self.spec_items().len() > 0 && next == SessionState::ReadyToInject
                &&& self.spec_state() == SessionState::Idle ==> !inject && next == SessionState::Idle
                &&& (next == SessionState::Idle) ==> (self.spec_state() == SessionState::Idle
                    || self.spec_state() == SessionState::ReadyToInject)
            }),
    {
    }

    /// The joined buffer of a well-formed session fits in memory.
    pub proof fn lemma_preview_fits(&self)
        requires
            self.wf(),
        ensures
            utf8_len(self.spec_preview()) <= usize::MAX,
    {
    }

    /// Adding `text` keeps the joined buffer within `usize` bytes.
    pub open spec fn fits_after_adding(&self, text: Seq<char>) -> bool {
        utf8_len(
            joined(
                self.spec_items().push(normalized_text(text, self.spec_normalize())),
                self.spec_separator(),
            ),
        ) <= usize::MAX
    }

    /// A new, idle session with the given configuration.
    pub fn new(config: SessionConfig, metrics: InjectionMetrics) -> (s: Self)
        requires
            metrics.wf(),
            utf8_len(config.join_separator@) <= usize::MAX,
        ensures
            s.wf(),
            s.spec_state() == SessionState::Idle,
            s.spec_items().len() == 0,
            !s.spec_has_last(),
            s.spec_silence_timeout_ms() == config.silence_timeout_ms,
            s.spec_pause_timeout_ms() == config.buffer_pause_timeout_ms,
            s.spec_max_buffer_size() == config.max_buffer_size,
            s.spec_separator() == config.join_separator@,
            s.spec_flush_on_punctuation() == config.flush_on_punctuation,
            s.spec_punctuation() == config.punctuation_marks@,
            s.spec_normalize() == config.normalize_whitespace,
            s.spec_metrics() == metrics,
    {
        let s = InjectionSession {
            state: SessionState::Idle,
            buffer: Vec::new(),
            last_transcription: None,
            buffering_start: None,
            silence_timeout_ms: config.silence_timeout_ms,
            buffer_pause_timeout_ms: config.buffer_pause_timeout_ms,
            max_buffer_size: config.max_buffer_size,
            join_separator: config.join_separator,
            flush_on_punctuation: config.flush_on_punctuation,
            punctuation_marks: config.punctuation_marks,
            normalize_whitespace: config.normalize_whitespace,
            metrics,
        };
        assert(s.spec_items() =~= Seq::<Seq<char>>::empty());
        s
    }

    /// The byte length of the joined text grows with every buffered item.
    proof fn lemma_joined_len_monotone(items: Seq<Seq<char>>, sep: Seq<char>, i: int)
        requires
            0 <= i <= items.len(),
        ensures
            utf8_len(joined(items.take(i), sep)) <= utf8_len(joined(items, sep)),
        decreases items.len() - i,
    {
        if i < items.len() {
            Self::lemma_joined_len_monotone(items, sep, i + 1);
            assert(items.take(i + 1) =~= items.take(i).push(items[i]));
            lemma_joined_push(items.take(i), sep, items[i]);
            if i > 0 {
                lemma_utf8_len_append(joined(items.take(i), sep) + sep, items[i]);
                lemma_utf8_len_append(joined(items.take(i), sep), sep);
            }
        } else {
            assert(items.take(i) =~= items);
        }
    }

    /// Total size of the joined buffer in UTF-8 bytes: the lengths of the
    /// items plus a separator between each two.
    pub fn total_chars(&self) -> (n: usize)
        requires
            self.wf(),
        ensures
            n == utf8_len(self.spec_preview()),
    {
        let ghost items = self.spec_items();
        let ghost sep = self.spec_separator();
        let sep_len = self.join_separator.as_str().len();
        let count = self.buffer.len();
        let mut acc: usize = 0;
        let mut i: usize = 0;
        assert(items.take(0) =~= Seq::<Seq<char>>::empty());
        while i < count
            invariant
                self.wf(),
                items == self.spec_items(),
                sep == self.spec_separator(),
                count == self.buffer@.len(),
                sep_len == utf8_len(sep),
                i <= count,
                acc == utf8_len(joined(items.take(i as int), sep)),
            decreases count - i,
        {
            proof {
                assert(items.take(i + 1) =~= items.take(i as int).push(items[i as int]));
                lemma_joined_push(items.take(i as int), sep, items[i as int]);
                Self::lemma_joined_len_monotone(items, sep, i + 1);
                lemma_utf8_len_append(joined(items.take(i as int), sep) + sep, items[i as int]);
                lemma_utf8_len_append(joined(items.take(i as int), sep), sep);
            }
            let item_len = self.buffer[i].as_str().len();
            if i > 0 {
                acc = acc + sep_len;
            }
            acc = acc + item_len;
            i += 1;
        }
        assert(items.take(count as int) =~= items);
        acc
    }

    fn contains_mark(marks: &Vec<char>, c: char) -> (r: bool)
        ensures
            r == marks@.contains(c),
    {
        let mut i: usize = 0;
        while i < marks.len()
            invariant
                i <= marks@.len(),
                forall|k: int| 0 <= k < i ==> marks@[k] != c,
            decreases marks@.len() - i,
        {
            if marks[i] == c {
                return true;
            }
            i += 1;
        }
        false
    }

    /// Whether the buffer's joined text would still fit in memory with
    /// `text` added (normalised as `add_transcription` normalises it).
    pub fn has_room_for(&self, text: &str) -> (r: bool)
        requires
            self.wf(),
        ensures
            r == self.fits_after_adding(text@),
    {
        let chars = chars_of(text);
        let trimmed = trim_chars(&chars);
        let norm_chars = if self.normalize_whitespace {
            collapse_chars(&trimmed)
        } else {
            trimmed
        };
        let normalized = string_from_chars(&norm_chars);
        let n_len = normalized.as_str().as_bytes().len();
        let ghost items = string_views(self.buffer@);
        let ghost sep = self.join_separator@;
        proof {
            lemma_joined_push(items, sep, norm_chars@);
            assert(items == self.spec_items());
            assert(norm_chars@ == normalized_text(text@, self.spec_normalize()));
            assert(n_len == utf8_len(norm_chars@));
        }
        if self.buffer.len() == 0 {
            assert(items.len() == 0);
            assert(joined(items.push(norm_chars@), sep) == norm_chars@);
            return true;
        }
        let total = self.total_chars();
        let sep_len = self.join_separator.as_str().len();
        proof {
            lemma_utf8_len_append(joined(items, sep), sep);
            lemma_utf8_len_append(joined(items, sep) + sep, norm_chars@);
        }
        match total.checked_add(sep_len) {
            Some(a) => a.checked_add(n_len).is_some(),
            None => false,
        }
    }

    /// Adds a transcription to the buffer. Empty and whitespace-only
    /// transcriptions are ignored; others are trimmed (and, when configured,
    /// whitespace-collapsed), counted, buffered, and move the session to
    /// buffering, or straight to ready-to-inject when the buffer grew past
    /// its limit or the text ends with a flushing punctuation mark.
    pub fn add_transcription(&mut self, text: String)
        requires
            old(self).wf(),
            old(self).fits_after_adding(text@),
        ensures
            final(self).wf(),
            final(self).spec_items() == items_after_adding(old(self).spec_items(), seq![text@], old(self).spec_normalize()),
            ({
                let n = normalized_text(text@, old(self).spec_normalize());
                let items = old(self).spec_items().push(n);
                let sep = old(self).spec_separator();
                if trim(text@).len() == 0 {
                    &&& final(self).spec_state() == old(self).spec_state()
                    &&& final(self).spec_items() == old(self).spec_items()
                    &&& final(self).spec_has_last() == old(self).spec_has_last()
                    &&& final(self).spec_metrics() == old(self).spec_metrics()
                } else {
                    &&& final(self).spec_items() == items
                    &&& final(self).spec_has_last()
                    &&& final(self).spec_state() == (if utf8_len(joined(items, sep))
                        > old(self).spec_max_buffer_size() {
                        SessionState::ReadyToInject
                    } else if ends_with_mark(
                        n,
                        old(self).spec_flush_on_punctuation(),
                        old(self).spec_punctuation(),
                    ) {
                        SessionState::ReadyToInject
                    } else {
                        SessionState::Buffering
                    })
                    &&& final(self).spec_metrics().chars_buffered
                        == old(self).spec_metrics().chars_buffered.saturating_add(
                        utf8_len(n) as u64,
                    )
                    &&& final(self).spec_metrics().flushes == old(self).spec_metrics().flushes
                }
            }),
            !old(self).spec_flush_on_punctuation() && trim(text@).len() > 0 && utf8_len(
                joined(
                    old(self).spec_items().push(normalized_text(text@, old(self).spec_normalize())),
                    old(self).spec_separator(),
                ),
            ) <= old(self).spec_max_buffer_size() ==> final(self).spec_state() == SessionState::Buffering,
            final(self).spec_separator() == old(self).spec_separator(),
            final(self).spec_silence_timeout_ms() == old(self).spec_silence_timeout_ms(),
            final(self).spec_pause_timeout_ms() == old(self).spec_pause_timeout_ms(),
            final(self).spec_max_buffer_size() == old(self).spec_max_buffer_size(),
            final(self).spec_flush_on_punctuation() == old(self).spec_flush_on_punctuation(),
            final(self).spec_punctuation() == old(self).spec_punctuation(),
            final(self).spec_normalize() == old(self).spec_normalize(),
    {
        proof {
            lemma_punctuation_flush_needs_setting(
                normalized_text(text@, self.spec_normalize()),
                self.spec_punctuation(),
            );
            assert(seq![text@].drop_last() =~= Seq::<Seq<char>>::empty());
            reveal_with_fuel(items_after_adding, 2);
        }
        let chars = chars_of(text.as_str());
        let trimmed = trim_chars(&chars);
        if trimmed.len() == 0 {
            return;
        }
        let norm_chars = if self.normalize_whitespace {
            collapse_chars(&trimmed)
        } else {
            trimmed
        };
        let normalized = string_from_chars(&norm_chars);
        proof {
            let items = string_views(self.buffer@);
            let sep = self.join_separator@;
            lemma_joined_push(items, sep, norm_chars@);
            if items.len() > 0 {
                lemma_utf8_len_append(joined(items, sep) + sep, norm_chars@);
            }
        }
        let nbytes = normalized.as_str().len();
        self.record_buffered_chars(nbytes as u64);

        let ends_with_punctuation = self.flush_on_punctuation && norm_chars.len() > 0
            && Self::contains_mark(&self.punctuation_marks, norm_chars[norm_chars.len() - 1]);

        self.buffer.push(normalized);
        self.last_transcription = Some(instant_now());
        proof {
            assert(string_views(self.buffer@) =~= string_views(old(self).buffer@).push(
                norm_chars@,
            ));
        }

        match self.state {
            SessionState::Idle => {
                self.state = SessionState::Buffering;
                self.buffering_start = Some(instant_now());
            },
            SessionState::Buffering => {},
            SessionState::WaitingForSilence => {
                self.state = SessionState::Buffering;
                self.buffering_start = Some(instant_now());
            },
            SessionState::ReadyToInject => {
                self.state = SessionState::Buffering;
                self.buffering_start = Some(instant_now());
            },
        }

        if self.total_chars() > self.max_buffer_size {
            self.state = SessionState::ReadyToInject;
            return;
        }

        if ends_with_punctuation {
            self.state = SessionState::ReadyToInject;
        }
    }

    /// Milliseconds since the last transcription, if there was one.
    pub fn since_last_ms(&self) -> (r: Option<u64>)
        ensures
            r is Some == self.spec_has_last(),
    {
        match &self.last_transcription {
            Some(t) => Some(elapsed_millis(t)),
            None => None,
        }
    }

    /// The pause check with the elapsed time given: a buffering session
    /// whose last transcription is at least the pause timeout old starts
    /// waiting for silence.
    pub fn check_for_silence_transition_after(&mut self, since_last_ms: Option<u64>)
        requires
            old(self).wf(),
            since_last_ms is Some == old(self).spec_has_last(),
        ensures
            final(self).wf(),
            final(self).spec_state() == after_pause_check(
                old(self).spec_state(),
                since_last_ms,
                old(self).spec_pause_timeout_ms(),
            ),
            final(self).spec_items() == old(self).spec_items(),
            final(self).spec_has_last() == old(self).spec_has_last(),
            final(self).spec_metrics() == old(self).spec_metrics(),
            final(self).spec_separator() == old(self).spec_separator(),
            final(self).spec_silence_timeout_ms() == old(self).spec_silence_timeout_ms(),
            final(self).spec_pause_timeout_ms() == old(self).spec_pause_timeout_ms(),
            final(self).spec_max_buffer_size() == old(self).spec_max_buffer_size(),
            final(self).spec_flush_on_punctuation() == old(self).spec_flush_on_punctuation(),
            final(self).spec_punctuation() == old(self).spec_punctuation(),
            final(self).spec_normalize() == old(self).spec_normalize(),
    {
        if self.state == SessionState::Buffering {
            if self.buffering_start.is_some() {
                if let Some(since) = since_last_ms {
                    if since >= self.buffer_pause_timeout_ms {
                        self.state = SessionState::WaitingForSilence;
                    }
                }
            }
        }
    }

    /// The pause check against the clock; the state moves as
    /// `check_for_silence_transition_after` describes for the elapsed time
    /// that was read.
    pub fn check_for_silence_transition(&mut self)
        requires
            old(self).wf(),
        ensures
            final(self).wf(),
            exists|since: Option<u64>|
                since is Some == old(self).spec_has_last() && final(self).spec_state()
                    == #[trigger] after_pause_check(
                    old(self).spec_state(),
                    since,
                    old(self).spec_pause_timeout_ms(),
                ),
            final(self).spec_items() == old(self).spec_items(),
            final(self).spec_has_last() == old(self).spec_has_last(),
            final(self).spec_metrics() == old(self).spec_metrics(),
            final(self).spec_separator() == old(self).spec_separator(),
            final(self).spec_silence_timeout_ms() == old(self).spec_silence_timeout_ms(),
            final(self).spec_pause_timeout_ms() == old(self).spec_pause_timeout_ms(),
            final(self).spec_max_buffer_size() == old(self).spec_max_buffer_size(),
            final(self).spec_flush_on_punctuation() == old(self).spec_flush_on_punctuation(),
            final(self).spec_punctuation() == old(self).spec_punctuation(),
            final(self).spec_normalize() == old(self).spec_normalize(),
    {
        if self.state == SessionState::Buffering {
            let since = self.since_last_ms();
            self.check_for_silence_transition_after(since);
        } else {
            let ghost w: Option<u64> = if self.spec_has_last() { Some(0) } else { None };
            assert(final(self).spec_state() == after_pause_check(old(self).spec_state(), w, old(self).spec_pause_timeout_ms()));
        }
    }

    /// Whether to inject now, with the elapsed time given. A buffering
    /// session only runs the pause check and answers no; a session waiting
    /// for silence becomes ready once the silence timeout has passed; a ready
    /// session answers yes unless its buffer is empty, in which case it goes
    /// idle; an idle session answers no.
    pub fn should_inject_after(&mut self, since_last_ms: Option<u64>) -> (r: bool)
        requires
            old(self).wf(),
            since_last_ms is Some == old(self).spec_has_last(),
        ensures
            final(self).wf(),
            (final(self).spec_state(), r) == after_inject_check(
                old(self).spec_state(),
                old(self).spec_items().len(),
                since_last_ms,
                old(self).spec_pause_timeout_ms(),
                old(self).spec_silence_timeout_ms(),
            ),
            final(self).spec_items() == old(self).spec_items(),
            final(self).spec_has_last() == old(self).spec_has_last(),
            final(self).spec_metrics() == old(self).spec_metrics(),
            final(self).spec_separator() == old(self).spec_separator(),
            final(self).spec_silence_timeout_ms() == old(self).spec_silence_timeout_ms(),
            final(self).spec_pause_timeout_ms() == old(self).spec_pause_timeout_ms(),
            final(self).spec_max_buffer_size() == old(self).spec_max_buffer_size(),
            final(self).spec_flush_on_punctuation() == old(self).spec_flush_on_punctuation(),
            final(self).spec_punctuation() == old(self).spec_punctuation(),
            final(self).spec_normalize() == old(self).spec_normalize(),
    {
        match self.state {
            SessionState::Buffering => {
                self.check_for_silence_transition_after(since_last_ms);
                false
            },
            SessionState::WaitingForSilence => {
                if let Some(since) = since_last_ms {
                    if since >= self.silence_timeout_ms {
                        self.state = SessionState::ReadyToInject;
                        true
                    } else {
                        false
                    }
                } else {
                    false
                }
            },
            SessionState::ReadyToInject => {
                if self.buffer.len() == 0 {
                    self.state = SessionState::Idle;
                    false
                } else {
                    true
                }
            },
            SessionState::Idle => false,
        }
    }

    /// Whether to inject now, against the clock; the answer and the new state
    /// are those of `should_inject_after` for the elapsed time that was read.
    pub fn should_inject(&mut self) -> (r: bool)
        requires
            old(self).wf(),
        ensures
            final(self).wf(),
            exists|since: Option<u64>|
                since is Some == old(self).spec_has_last() && (final(self).spec_state(), r)
                    == #[trigger] after_inject_check(
                    old(self).spec_state(),
                    old(self).spec_items().len(),
                    since,
                    old(self).spec_pause_timeout_ms(),
                    old(self).spec_silence_timeout_ms(),
                ),
            final(self).spec_items() == old(self).spec_items(),
            final(self).spec_has_last() == old(self).spec_has_last(),
            final(self).spec_metrics() == old(self).spec_metrics(),
            final(self).spec_separator() == old(self).spec_separator(),
            final(self).spec_silence_timeout_ms() == old(self).spec_silence_timeout_ms(),
            final(self).spec_pause_timeout_ms() == old(self).spec_pause_timeout_ms(),
            final(self).spec_max_buffer_size() == old(self).spec_max_buffer_size(),
            final(self).spec_flush_on_punctuation() == old(self).spec_flush_on_punctuation(),
            final(self).spec_punctuation() == old(self).spec_punctuation(),
            final(self).spec_normalize() == old(self).spec_normalize(),
    {
        let since = self.since_last_ms();
        self.should_inject_after(since)
    }

    /// Takes the joined buffer, records the flush and resets the session to idle.
    pub fn take_buffer(&mut self) -> (text: String)
        requires
            old(self).wf(),
        ensures
            final(self).wf(),
            text@ == old(self).spec_preview(),
            final(self).spec_state() == SessionState::Idle,
            final(self).spec_items().len() == 0,
            !final(self).spec_has_last(),
            final(self).spec_metrics().flushes == old(self).spec_metrics().flushes.saturating_add(1),
            final(self).spec_metrics().last_flush_size == utf8_len(old(self).spec_preview()),
            final(self).spec_metrics().chars_buffered == old(self).spec_metrics().chars_buffered,
            final(self).spec_separator() == old(self).spec_separator(),
            final(self).spec_silence_timeout_ms() == old(self).spec_silence_timeout_ms(),
            final(self).spec_pause_timeout_ms() == old(self).spec_pause_timeout_ms(),
            final(self).spec_max_buffer_size() == old(self).spec_max_buffer_size(),
            final(self).spec_flush_on_punctuation() == old(self).spec_flush_on_punctuation(),
            final(self).spec_punctuation() == old(self).spec_punctuation(),
            final(self).spec_normalize() == old(self).spec_normalize(),
    {
        let text = join_strings(&self.buffer, self.join_separator.as_str());
        let size = text.as_str().len();
        self.buffer.clear();
        self.last_transcription = None;
        self.buffering_start = None;
        self.state = SessionState::Idle;
        proof {
            assert(string_views(self.buffer@) =~= Seq::<Seq<char>>::empty());
        }
        self.record_flush(size as u64);
        text
    }

    /// The current state.
    pub fn state(&self) -> (s: SessionState)
        ensures
            s == self.spec_state(),
    {
        self.state
    }

    /// Number of buffered transcriptions.
    pub fn buffer_len(&self) -> (n: usize)
        ensures
            n == self.spec_items().len(),
    {
        self.buffer.len()
    }

    /// Time since the last transcription, if there was one.
    pub fn time_since_last_transcription(&self) -> (d: Option<Duration>)
        ensures
            d is Some == self.spec_has_last(),
    {
        match &self.last_transcription {
            Some(t) => Some(elapsed_duration(t)),
            None => None,
        }
    }

    /// Whether anything is buffered.
    pub fn has_content(&self) -> (b: bool)
        ensures
            b == (self.spec_items().len() > 0),
    {
        self.buffer.len() > 0
    }

    /// Forces a session with content into the ready-to-inject state.
    pub fn force_inject(&mut self)
        requires
            old(self).wf(),
        ensures
            final(self).wf(),
            final(self).spec_state() == (if old(self).spec_items().len() > 0 {
                SessionState::ReadyToInject
            } else {
                old(self).spec_state()
            }),
            final(self).spec_items() == old(self).spec_items(),
            final(self).spec_has_last() == old(self).spec_has_last(),
            final(self).spec_metrics() == old(self).spec_metrics(),
            final(self).spec_separator() == old(self).spec_separator(),
            final(self).spec_silence_timeout_ms() == old(self).spec_silence_timeout_ms(),
            final(self).spec_pause_timeout_ms() == old(self).spec_pause_timeout_ms(),
            final(self).spec_max_buffer_size() == old(self).spec_max_buffer_size(),
            final(self).spec_flush_on_punctuation() == old(self).spec_flush_on_punctuation(),
            final(self).spec_punctuation() == old(self).spec_punctuation(),
            final(self).spec_normalize() == old(self).spec_normalize(),
    {
        if self.has_content() {
            self.state = SessionState::ReadyToInject;
        }
    }

    /// Drops the buffer and resets the session to idle.
    pub fn clear(&mut self)
        requires
            old(self).wf(),
        ensures
            final(self).wf(),
            final(self).spec_state() == SessionState::Idle,
            final(self).spec_items().len() == 0,
            !final(self).spec_has_last(),
            final(self).spec_metrics() == old(self).spec_metrics(),
            final(self).spec_separator() == old(self).spec_separator(),
            final(self).spec_silence_timeout_ms() == old(self).spec_silence_timeout_ms(),
            final(self).spec_pause_timeout_ms() == old(self).spec_pause_timeout_ms(),
            final(self).spec_max_buffer_size() == old(self).spec_max_buffer_size(),
            final(self).spec_flush_on_punctuation() == old(self).spec_flush_on_punctuation(),
            final(self).spec_punctuation() == old(self).spec_punctuation(),
            final(self).spec_normalize() == old(self).spec_normalize(),
    {
        self.buffer.clear();
        self.last_transcription = None;
        self.buffering_start = None;
        self.state = SessionState::Idle;
        proof {
            assert(string_views(self.buffer@) =~= Seq::<Seq<char>>::empty());
        }
    }

    /// The joined buffer, without taking it.
    pub fn buffer_preview(&self) -> (text: String)
        ensures
            text@ == self.spec_preview(),
    {
        join_strings(&self.buffer, self.join_separator.as_str())
    }

    /// Counts characters that entered the buffer.
    pub fn record_buffered_chars(&mut self, count: u64)
        requires
            old(self).wf(),
        ensures
            final(self).wf(),
            final(self).spec_metrics().chars_buffered == old(self).spec_metrics().chars_buffered.saturating_add(count),
            final(self).spec_metrics().flushes == old(self).spec_metrics().flushes,
            final(self).spec_state() == old(self).spec_state(),
            final(self).spec_items() == old(self).spec_items(),
            final(self).spec_has_last() == old(self).spec_has_last(),
            final(self).spec_separator() == old(self).spec_separator(),
            final(self).spec_silence_timeout_ms() == old(self).spec_silence_timeout_ms(),
            final(self).spec_pause_timeout_ms() == old(self).spec_pause_timeout_ms(),
            final(self).spec_max_buffer_size() == old(self).spec_max_buffer_size(),
            final(self).spec_flush_on_punctuation() == old(self).spec_flush_on_punctuation(),
            final(self).spec_punctuation() == old(self).spec_punctuation(),
            final(self).spec_normalize() == old(self).spec_normalize(),
    {
        self.metrics.record_buffered_chars(count);
    }

    /// Counts a flush of `size` characters.
    pub fn record_flush(&mut self, size: u64)
        requires
            old(self).wf(),
        ensures
            final(self).wf(),
            final(self).spec_metrics().flushes == old(self).spec_metrics().flushes.saturating_add(1),
            final(self).spec_metrics().last_flush_size == size,
            final(self).spec_metrics().chars_buffered == old(self).spec_metrics().chars_buffered,
            final(self).spec_state() == old(self).spec_state(),
            final(self).spec_items() == old(self).spec_items(),
            final(self).spec_has_last() == old(self).spec_has_last(),
            final(self).spec_separator() == old(self).spec_separator(),
            final(self).spec_silence_timeout_ms() == old(self).spec_silence_timeout_ms(),
            final(self).spec_pause_timeout_ms() == old(self).spec_pause_timeout_ms(),
            final(self).spec_max_buffer_size() == old(self).spec_max_buffer_size(),
            final(self).spec_flush_on_punctuation() == old(self).spec_flush_on_punctuation(),
            final(self).spec_punctuation() == old(self).spec_punctuation(),
            final(self).spec_normalize() == old(self).spec_normalize(),
    {
        self.metrics.record_flush(size);
    }

    /// Records the latency from the last final transcription to its injection.
    pub fn record_latency_from_final(&mut self, ms: u64)
        requires
            old(self).wf(),
        ensures
            final(self).wf(),
            final(self).spec_metrics() == (InjectionMetrics {
                last_latency_from_final_ms: Some(ms),
                ..old(self).spec_metrics()
            }),
            final(self).spec_state() == old(self).spec_state(),
            final(self).spec_items() == old(self).spec_items(),
            final(self).spec_has_last() == old(self).spec_has_last(),
            final(self).spec_separator() == old(self).spec_separator(),
            final(self).spec_silence_timeout_ms() == old(self).spec_silence_timeout_ms(),
            final(self).spec_pause_timeout_ms() == old(self).spec_pause_timeout_ms(),
            final(self).spec_max_buffer_size() == old(self).spec_max_buffer_size(),
            final(self).spec_flush_on_punctuation() == old(self).spec_flush_on_punctuation(),
            final(self).spec_punctuation() == old(self).spec_punctuation(),
            final(self).spec_normalize() == old(self).spec_normalize(),
    {
        self.metrics.record_latency_from_final(ms);
    }

    /// Counts the start of an injection.
    pub fn update_last_injection(&mut self)
        requires
            old(self).wf(),
        ensures
            final(self).wf(),
            final(self).spec_metrics() == (InjectionMetrics {
                injections_started: old(self).spec_metrics().injections_started.saturating_add(1),
                ..old(self).spec_metrics()
            }),
            final(self).spec_state() == old(self).spec_state(),
            final(self).spec_items() == old(self).spec_items(),
            final(self).spec_has_last() == old(self).spec_has_last(),
            final(self).spec_separator() == old(self).spec_separator(),
            final(self).spec_silence_timeout_ms() == old(self).spec_silence_timeout_ms(),
            final(self).spec_pause_timeout_ms() == old(self).spec_pause_timeout_ms(),
            final(self).spec_max_buffer_size() == old(self).spec_max_buffer_size(),
            final(self).spec_flush_on_punctuation() == old(self).spec_flush_on_punctuation(),
            final(self).spec_punctuation() == old(self).spec_punctuation(),
            final(self).spec_normalize() == old(self).spec_normalize(),
    {
        self.metrics.update_last_injection();
    }

    /// The session's telemetry counters.
    pub fn metrics(&self) -> (m: &InjectionMetrics)
        ensures
            *m == self.spec_metrics(),
    {
        &self.metrics
    }
}

} // verus!
