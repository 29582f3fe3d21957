//! Confirmation of an injection: the injected text is recognised in the
//! target's text-changed events by a short prefix of grapheme clusters, and
//! a bounded polling loop decides when the text is confirmed.

use crate::text::string_views;
use crate::types::InjectionConfig;
use unicode_segmentation::UnicodeSegmentation;
use vstd::prelude::*;
use vstd::string::StringExecFns;
use vstd::utf8::{decode_utf8, encode_utf8, is_char_boundary};

verus! {

/// The extended grapheme clusters of a text, as `unicode_segmentation`
/// splits it (UAX #29).
pub uninterp spec fn grapheme_clusters(s: Seq<char>) -> Seq<Seq<char>>;

/// `UnicodeSegmentation::graphemes(s, true)`, collected. The iterator yields
/// consecutive non-empty slices of `s` that together cover it; which
/// boundaries it picks is left to the name `grapheme_clusters`.
#[verifier::external_body]
fn graphemes_of(s: &str) -> (r: Vec<String>)
    ensures
        string_views(r@) == grapheme_clusters(s@),
        string_views(r@).flatten() == s@,
        forall|i: int| 0 <= i < r@.len() ==> (#[trigger] r@[i])@.len() > 0,
{
    s.graphemes(true).map(|g| g.to_string()).collect()
}

/// How many leading grapheme clusters a prefix keeps, for a text of `n`
/// clusters: all of up to three, three of four to six, four of more.
pub open spec fn prefix_cluster_count(n: nat) -> nat {
    if n <= 3 {
        n
    } else if n <= 6 {
        3
    } else {
        4
    }
}

/// The prefix that identifies `text` in a text-changed event.
pub open spec fn prefix_spec(text: Seq<char>) -> Seq<char> {
    let g = grapheme_clusters(text);
    g.take(prefix_cluster_count(g.len()) as int).flatten()
}

/// Confirmation result for text injection.
#[derive(Debug, Clone, PartialEq)]
pub enum ConfirmationResult {
    /// The text was seen in the target.
    Success,
    /// Confirmation ran out of time.
    Timeout,
    /// No matching change was seen.
    NoMatch,
    /// Confirmation could not run.
    Error(String),
}

/// Recognises injected text in text-changed events.
pub struct TextChangeListener {
    config: InjectionConfig,
}

impl TextChangeListener {
    /// A listener for `config`.
    pub fn new(config: InjectionConfig) -> (l: Self)
        ensures
            l.spec_config() == config,
    {
        TextChangeListener { config }
    }

    pub closed spec fn spec_config(&self) -> InjectionConfig {
        self.config
    }

    /// The first 3 to 6 visible characters of `text`: all clusters of a text
    /// of at most three, three of a text of four to six, four otherwise.
    pub fn extract_prefix(text: &str) -> (p: String)
        ensures
            p@ == prefix_spec(text@),
            p@.len() <= text@.len(),
            p@ == text@.take(p@.len() as int),
            text@.len() > 0 ==> p@.len() > 0 && prefix_matches(text@, p@),
    {
        let g = graphemes_of(text);
        let n = g.len();
        let k: usize = if n <= 3 {
            n
        } else if n <= 6 {
            3
        } else {
            4
        };
        let mut out = String::new();
        let mut i: usize = 0;
        while i < k
            invariant
                k <= n,
                n == g@.len(),
                i <= k,
                k == prefix_cluster_count(n as nat),
                string_views(g@) == grapheme_clusters(text@),
                out@ == string_views(g@).take(i as int).flatten(),
            decreases k - i,
        {
            proof {
                let v = string_views(g@);
                assert(v.take(i + 1) =~= v.take(i as int).push(v[i as int]));
                v.take(i as int).lemma_flatten_push(v[i as int]);
            }
            out.append(g[i].as_str());
            i += 1;
        }
        proof {
            let v = string_views(g@);
            let kk = k as int;
            assert(v =~= v.take(kk) + v.skip(kk));
            vstd::seq_lib::lemma_flatten_concat(v.take(kk), v.skip(kk));
            assert(text@ =~= v.take(kk).flatten() + v.skip(kk).flatten());
            assert(out@ == v.take(kk).flatten());
            assert(text@.take(out@.len() as int) =~= out@);
            if text@.len() > 0 {
                if v.len() == 0 {
                    assert(v =~= Seq::<Seq<char>>::empty());
                    assert(v.flatten() =~= Seq::<char>::empty());
                }
                assert(kk >= 1);
                let t = v.take(kk);
                assert(t.len() > 0 && t[0] == v[0]);
                assert(t.flatten() == t[0] + t.drop_first().flatten());
                assert(v[0].len() > 0);
            }
        }
        out
    }

    /// Whether a text-changed event's text starts like the expected prefix:
    /// never for an empty prefix; otherwise when the event text's own prefix
    /// equals it.
    pub fn matches_prefix(event_text: &str, expected_prefix: &str) -> (r: bool)
        ensures
            r == (expected_prefix@.len() > 0 && prefix_spec(event_text@) == expected_prefix@),
    {
        if expected_prefix.is_empty() {
            return false;
        }
        let event_prefix = Self::extract_prefix(event_text);
        crate::text::str_eq(event_prefix.as_str(), expected_prefix)
    }
}

/// What a confirmation runs with: the listener of the configuration.
pub struct ConfirmationContext {
    listener: TextChangeListener,
}

impl ConfirmationContext {
    /// The configuration of the context's listener.
    pub closed spec fn spec_config(&self) -> InjectionConfig {
        self.listener.spec_config()
    }
}

/// A confirmation context for injections under `config`.
pub fn create_confirmation_context(config: InjectionConfig) -> (c: ConfirmationContext)
    ensures
        c.spec_config() == config,
{
    ConfirmationContext { listener: TextChangeListener::new(config) }
}

/// Whether an event text matches an expected prefix.
pub open spec fn prefix_matches(event_text: Seq<char>, expected: Seq<char>) -> bool {
    expected.len() > 0 && prefix_spec(event_text) == expected
}

/// The characters of `s` after its first `nbytes` UTF-8 bytes.
pub open spec fn suffix_after_bytes(s: Seq<char>, nbytes: int) -> Seq<char> {
    let b = encode_utf8(s);
    decode_utf8(b.subrange(nbytes, b.len() as int))
}

/// Longest wait for a confirmation.
pub const CONFIRM_TIMEOUT_MS: u64 = 75;

/// Most polls of the target's text during one confirmation.
pub const CONFIRM_MAX_POLLS: u32 = 7;

/// A bounded confirmation in progress: the caller reads the focused text
/// about every 10 ms and hands each reading to `poll`, for at most
/// `CONFIRM_TIMEOUT_MS` and `CONFIRM_MAX_POLLS` readings.
pub struct ConfirmationPoller {
    expected_prefix: String,
    last_text: String,
    polls: u32,
}

impl ConfirmationPoller {
    pub closed spec fn spec_expected(&self) -> Seq<char> {
        self.expected_prefix@
    }

    /// The text seen last.
    pub closed spec fn spec_last(&self) -> Seq<char> {
        self.last_text@
    }

    pub closed spec fn spec_polls(&self) -> u32 {
        self.polls
    }

    /// The last text fits in memory.
    pub closed spec fn wf(&self) -> bool {
        crate::text::utf8_len(self.last_text@) <= usize::MAX
    }

    /// Starts the confirmation of `prefix`, expecting its own prefix. An
    /// empty prefix cannot be confirmed (the own prefix of any other text is
    /// never empty).
    pub fn start(prefix: &str) -> (r: Result<ConfirmationPoller, ConfirmationResult>)
        ensures
            prefix@.len() == 0 ==> (r matches Err(ConfirmationResult::Error(m)) && m@ == "Empty prefix"@),
            prefix@.len() > 0 ==> (r matches Ok(p) && {
                &&& p.wf()
                &&& p.spec_expected() == prefix_spec(prefix@)
                &&& p.spec_last().len() == 0
                &&& p.spec_polls() == 0
            }),
    {
        if prefix.is_empty() {
            return Err(ConfirmationResult::Error(String::from_str("Empty prefix")));
        }
        let expected = TextChangeListener::extract_prefix(prefix);
        if expected.as_str().is_empty() {
            return Err(ConfirmationResult::Error(String::from_str("Invalid prefix after extraction")));
        }
        let p = ConfirmationPoller { expected_prefix: expected, last_text: String::new(), polls: 0 };
        assert(crate::text::utf8_len(p.last_text@) == 0) by {
            assert(p.last_text@ =~= Seq::<char>::empty());
            assert(encode_utf8(p.last_text@) =~= Seq::<u8>::empty());
        }
        Ok(p)
    }

    /// Records the target's text before the first poll.
    pub fn set_initial_text(&mut self, text: &str)
        requires
            crate::text::utf8_len(text@) <= usize::MAX,
        ensures
            final(self).wf(),
            final(self).spec_last() == text@,
            final(self).spec_expected() == old(self).spec_expected(),
            final(self).spec_polls() == old(self).spec_polls(),
    {
        self.last_text = String::from_str(text);
    }

    /// Whether another poll is allowed `elapsed_ms` after the start.
    pub fn may_poll(&self, elapsed_ms: u64) -> (r: bool)
        ensures
            r == (elapsed_ms < CONFIRM_TIMEOUT_MS && self.spec_polls() < CONFIRM_MAX_POLLS),
    {
        elapsed_ms < CONFIRM_TIMEOUT_MS && self.polls < CONFIRM_MAX_POLLS
    }

    /// One reading of the focused text (`None` when it could not be read).
    /// A changed, longer text whose new part starts with the expected prefix
    /// confirms the injection; any other changed text becomes the last text.
    pub fn poll(&mut self, current: Option<&str>) -> (confirmed: bool)
        requires
            old(self).wf(),
            current matches Some(c) ==> crate::text::utf8_len(c@) <= usize::MAX,
            current matches Some(c) ==> (c@ != old(self).spec_last() && crate::text::utf8_len(c@)
                > crate::text::utf8_len(old(self).spec_last()) ==> is_char_boundary(
                encode_utf8(c@),
                crate::text::utf8_len(old(self).spec_last()) as int,
            )),
        ensures
            final(self).wf(),
            final(self).spec_polls() == old(self).spec_polls().saturating_add(1),
            final(self).spec_expected() == old(self).spec_expected(),
            ({
                let last = old(self).spec_last();
                match current {
                    None => !confirmed && final(self).spec_last() == last,
                    Some(c) => if c@ == last {
                        !confirmed && final(self).spec_last() == last
                    } else if crate::text::utf8_len(c@) > crate::text::utf8_len(last) && prefix_matches(
                        suffix_after_bytes(c@, crate::text::utf8_len(last) as int),
                        old(self).spec_expected(),
                    ) {
                        confirmed && final(self).spec_last() == last
                    } else {
                        !confirmed && final(self).spec_last() == c@
                    },
                }
            }),
    {
        self.polls = self.polls.saturating_add(1);
        match current {
            None => false,
            Some(c) => {
                if crate::text::str_eq(c, self.last_text.as_str()) {
                    return false;
                }
                let last_len = self.last_text.as_str().len();
                if c.len() > last_len {
                    let (_, new_chars) = c.split_at(last_len);
                    proof {
                        vstd::utf8::encode_utf8_decode_utf8(new_chars@);
                    }
                    if TextChangeListener::matches_prefix(new_chars, self.expected_prefix.as_str()) {
                        return true;
                    }
                }
                self.last_text = String::from_str(c);
                false
            },
        }
    }
}

} // verus!
