//! Per-backend reliability and latency metrics, with a bounded window of the
//! most recent latency samples, and the sink through which the pipeline
//! reports them.

use crate::error::{error_kind_spec, InjectionError};
use crate::probe::BackendId;
use vstd::prelude::*;
use vstd::string::StringExecFns;

verus! {

#[verifier::external_type_specification]
#[verifier::external_body]
#[verifier::reject_recursive_types(T)]
pub struct ExHeaplessVec<T, const N: usize>(heapless::Vec<T, N>);

/// How many latency samples a backend keeps.
pub const LATENCY_SAMPLES_CAPACITY: usize = 64;

/// The samples a window holds, oldest first.
pub uninterp spec fn sample_contents(v: heapless::Vec<u32, 64>) -> Seq<u32>;

/// `heapless::Vec::new`: an empty window.
#[verifier::external_body]
fn samples_new() -> (v: heapless::Vec<u32, 64>)
    ensures
        sample_contents(v) == Seq::<u32>::empty(),
{
    heapless::Vec::new()
}

/// `heapless::Vec::is_full`: whether the window holds its capacity.
#[verifier::external_body]
fn samples_is_full(v: &heapless::Vec<u32, 64>) -> (r: bool)
    ensures
        r == (sample_contents(*v).len() == LATENCY_SAMPLES_CAPACITY),
{
    v.is_full()
}

/// `heapless::Vec::remove(0)`: drops the oldest sample and shifts the rest
/// down (the call panics on an empty vector, which `requires` rules out).
#[verifier::external_body]
fn samples_remove_first(v: &mut heapless::Vec<u32, 64>) -> (x: u32)
    requires
        sample_contents(*old(v)).len() > 0,
    ensures
        x == sample_contents(*old(v))[0],
        sample_contents(*final(v)) == sample_contents(*old(v)).drop_first(),
{
    v.remove(0)
}

/// `heapless::Vec::push`: appends below capacity, and hands the item back
/// unchanged when the window is full.
#[verifier::external_body]
fn samples_push(v: &mut heapless::Vec<u32, 64>, x: u32) -> (r: Result<(), u32>)
    ensures
        sample_contents(*old(v)).len() < LATENCY_SAMPLES_CAPACITY ==> (r is Ok && sample_contents(*final(v))
            == sample_contents(*old(v)).push(x)),
        sample_contents(*old(v)).len() >= LATENCY_SAMPLES_CAPACITY ==> (r == Err::<(), u32>(x)
            && sample_contents(*final(v)) == sample_contents(*old(v))),
{
    v.push(x)
}

/// `heapless::Vec::as_slice`, copied: the samples, oldest first.
#[verifier::external_body]
fn samples_to_vec(v: &heapless::Vec<u32, 64>) -> (r: Vec<u32>)
    ensures
        r@ == sample_contents(*v),
{
    v.as_slice().to_vec()
}

/// The window after one more sample: a full window first drops its oldest
/// sample; a sample that still does not fit is not kept.
pub open spec fn samples_after(s: Seq<u32>, x: u32) -> Seq<u32> {
    let t = if s.len() == LATENCY_SAMPLES_CAPACITY { s.drop_first() } else { s };
    if t.len() < LATENCY_SAMPLES_CAPACITY { t.push(x) } else { t }
}

/// Metrics of one backend.
#[derive(Debug)]
pub struct BackendMetrics {
    pub attempts: u64,
    pub successes: u64,
    pub failures: u64,
    pub sum_latency_ms: u64,
    /// Smallest latency seen (0 before the first success).
    pub min_latency_ms: u32,
    pub max_latency_ms: u32,
    /// The most recent latency samples, at most `LATENCY_SAMPLES_CAPACITY`.
    pub samples_ms: heapless::Vec<u32, 64>,
}

impl BackendMetrics {
    /// The latency samples, oldest first.
    pub fn samples(&self) -> (v: Vec<u32>)
        ensures
            v@ == sample_contents(self.samples_ms),
    {
        samples_to_vec(&self.samples_ms)
    }
}

/// A zeroed backend metrics value (counters and window).
pub open spec fn zeroed(m: BackendMetrics) -> bool {
    &&& m.attempts == 0 && m.successes == 0 && m.failures == 0
    &&& m.sum_latency_ms == 0 && m.min_latency_ms == 0 && m.max_latency_ms == 0
    &&& sample_contents(m.samples_ms) == Seq::<u32>::empty()
}

impl Default for BackendMetrics {
    fn default() -> (m: Self)
        ensures
            zeroed(m),
    {
        BackendMetrics {
            attempts: 0,
            successes: 0,
            failures: 0,
            sum_latency_ms: 0,
            min_latency_ms: 0,
            max_latency_ms: 0,
            samples_ms: samples_new(),
        }
    }
}

/// The first position of `b`, if any.
pub open spec fn backend_index(s: Seq<(BackendId, BackendMetrics)>, b: BackendId) -> Option<int> {
    if exists|i: int| 0 <= i < s.len() && s[i].0 == b && forall|j: int| 0 <= j < i ==> s[j].0 != b {
        Some(choose|i: int| 0 <= i < s.len() && s[i].0 == b && forall|j: int| 0 <= j < i ==> s[j].0 != b)
    } else {
        None
    }
}

/// The first position of the count of `kind`, if any.
pub open spec fn kind_index(s: Seq<(String, u64)>, kind: Seq<char>) -> Option<int> {
    if exists|i: int| 0 <= i < s.len() && s[i].0@ == kind && forall|j: int| 0 <= j < i ==> s[j].0@ != kind {
        Some(choose|i: int| 0 <= i < s.len() && s[i].0@ == kind && forall|j: int| 0 <= j < i ==> s[j].0@ != kind)
    } else {
        None
    }
}

/// Metrics of the whole pipeline.
#[derive(Debug)]
pub struct InjectionMetrics {
    /// Attempts started.
    pub total_attempts: u64,
    /// Successful injections.
    pub total_successes: u64,
    /// Failures counted by the name of their error's variant.
    pub failures_by_kind: Vec<(String, u64)>,
    /// Metrics of each backend.
    pub backend_metrics: Vec<(BackendId, BackendMetrics)>,
}

/// Receives the metrics of injection attempts.
pub trait MetricsSink {
    /// An attempt with `backend` starts.
    fn emit_start(&mut self, backend: BackendId);

    /// `backend` completed an injection in `latency_ms`.
    fn emit_success(&mut self, backend: BackendId, latency_ms: u32);

    /// `backend` failed an injection with `err`.
    fn emit_fail(&mut self, backend: BackendId, err: &InjectionError);
}

/// `post` is `pre` with the entry of `b` (the first one, or a zeroed one
/// appended when there is none) changed from `old_entry` to `new_entry`.
pub open spec fn backend_changed(
    pre: Seq<(BackendId, BackendMetrics)>,
    post: Seq<(BackendId, BackendMetrics)>,
    b: BackendId,
    old_entry: BackendMetrics,
    new_entry: BackendMetrics,
) -> bool {
    match backend_index(pre, b) {
        Some(k) => {
            &&& same_metrics(old_entry, pre[k].1)
            &&& post == pre.update(k, (b, new_entry))
        },
        None => {
            &&& zeroed(old_entry)
            &&& post == pre.push((b, new_entry))
        },
    }
}

/// `post` counts one more failure of `kind` than `pre`.
pub open spec fn kind_counted(pre: Seq<(String, u64)>, post: Seq<(String, u64)>, kind: Seq<char>) -> bool {
    match kind_index(pre, kind) {
        Some(k) => {
            &&& post.len() == pre.len()
            &&& post[k].0@ == kind
            &&& post[k].1 == pre[k].1.saturating_add(1)
            &&& forall|j: int| 0 <= j < pre.len() && j != k ==> post[j] == pre[j]
        },
        None => {
            &&& post.len() == pre.len() + 1
            &&& post[pre.len() as int].0@ == kind
            &&& post[pre.len() as int].1 == 1
            &&& forall|j: int| 0 <= j < pre.len() ==> post[j] == pre[j]
        },
    }
}

/// The entry after a success of `latency_ms`.
pub open spec fn succeeded(pre: BackendMetrics, post: BackendMetrics, latency_ms: u32) -> bool {
    &&& post.attempts == pre.attempts
    &&& post.failures == pre.failures
    &&& post.successes == pre.successes.saturating_add(1)
    &&& post.sum_latency_ms == pre.sum_latency_ms.saturating_add(latency_ms as u64)
    &&& post.min_latency_ms == (if pre.min_latency_ms == 0 || latency_ms < pre.min_latency_ms {
        latency_ms
    } else {
        pre.min_latency_ms
    })
    &&& post.max_latency_ms == (if latency_ms > pre.max_latency_ms { latency_ms } else { pre.max_latency_ms })
    &&& sample_contents(post.samples_ms) == samples_after(sample_contents(pre.samples_ms), latency_ms)
}

impl InjectionMetrics {
    /// No attempts, no failures, no backends.
    pub fn new() -> (m: Self)
        ensures
            m.total_attempts == 0,
            m.total_successes == 0,
            m.failures_by_kind@.len() == 0,
            m.backend_metrics@.len() == 0,
    {
        InjectionMetrics {
            total_attempts: 0,
            total_successes: 0,
            failures_by_kind: Vec::new(),
            backend_metrics: Vec::new(),
        }
    }

    /// Takes the entry of `backend` out (a zeroed one when there is none),
    /// with the position to put it back.
    fn take_backend(&self, backend: BackendId) -> (r: (Option<usize>, BackendMetrics))
        ensures
            match backend_index(self.backend_metrics@, backend) {
                Some(k) => (r.0 matches Some(i) && i as int == k) && same_metrics(r.1, self.backend_metrics@[k].1),
                None => r.0 is None && zeroed(r.1),
            },
    {
        let n = self.backend_metrics.len();
        let mut i: usize = 0;
        while i < n
            invariant
                n == self.backend_metrics@.len(),
                i <= n,
                forall|k: int| 0 <= k < i ==> self.backend_metrics@[k].0 != backend,
            decreases n - i,
        {
            if self.backend_metrics[i].0 == backend {
                proof {
                    let s = self.backend_metrics@;
                    assert(s[i as int].0 == backend && forall|j: int| 0 <= j < i ==> s[j].0 != backend);
                    let c = choose|c: int| 0 <= c < s.len() && s[c].0 == backend && forall|j: int| 0 <= j < c ==> s[j].0 != backend;
                    if c < i {
                    } else if c > i {
                        assert(s[i as int].0 != backend);
                    }
                }
                return (Some(i), self.backend_metrics[i].1.clone_metrics());
            }
            i += 1;
        }
        (None, BackendMetrics::default())
    }

    /// Puts `entry` back as the metrics of `backend`.
    fn put_backend(&mut self, backend: BackendId, slot: Option<usize>, entry: BackendMetrics)
        requires
            slot matches Some(k) ==> k < old(self).backend_metrics@.len(),
        ensures
            final(self).total_attempts == old(self).total_attempts,
            final(self).total_successes == old(self).total_successes,
            final(self).failures_by_kind == old(self).failures_by_kind,
            final(self).backend_metrics@ == match slot {
                Some(k) => old(self).backend_metrics@.update(k as int, (backend, entry)),
                None => old(self).backend_metrics@.push((backend, entry)),
            },
    {
        match slot {
            Some(k) => self.backend_metrics.set(k, (backend, entry)),
            None => self.backend_metrics.push((backend, entry)),
        }
    }

    /// Adds one to the count of failures of `kind`.
    fn count_failure_kind(&mut self, kind: &str)
        ensures
            final(self).total_attempts == old(self).total_attempts,
            final(self).total_successes == old(self).total_successes,
            final(self).backend_metrics == old(self).backend_metrics,
            kind_counted(old(self).failures_by_kind@, final(self).failures_by_kind@, kind@),
    {
        let n = self.failures_by_kind.len();
        let mut i: usize = 0;
        while i < n
            invariant
                n == self.failures_by_kind@.len(),
                i <= n,
                *self == *old(self),
                forall|k: int| 0 <= k < i ==> self.failures_by_kind@[k].0@ != kind@,
            decreases n - i,
        {
            if crate::text::str_eq(self.failures_by_kind[i].0.as_str(), kind) {
                proof {
                    let s = self.failures_by_kind@;
                    assert(s[i as int].0@ == kind@ && forall|j: int| 0 <= j < i ==> s[j].0@ != kind@);
                    let c = choose|c: int| 0 <= c < s.len() && s[c].0@ == kind@ && forall|j: int| 0 <= j < c ==> s[j].0@ != kind@;
                    if c > i {
                        assert(s[i as int].0@ != kind@);
                    }
                }
                let name = self.failures_by_kind[i].0.clone();
                let count = self.failures_by_kind[i].1.saturating_add(1);
                self.failures_by_kind.set(i, (name, count));
                return;
            }
            i += 1;
        }
        self.failures_by_kind.push((String::from_str(kind), 1));
    }
}

impl BackendMetrics {
    /// A copy of these metrics.
    pub fn clone_metrics(&self) -> (c: Self)
        ensures
            c.attempts == self.attempts && c.successes == self.successes && c.failures == self.failures,
            c.sum_latency_ms == self.sum_latency_ms,
            c.min_latency_ms == self.min_latency_ms && c.max_latency_ms == self.max_latency_ms,
            sample_contents(c.samples_ms) == sample_contents(self.samples_ms),
    {
        BackendMetrics {
            attempts: self.attempts,
            successes: self.successes,
            failures: self.failures,
            sum_latency_ms: self.sum_latency_ms,
            min_latency_ms: self.min_latency_ms,
            max_latency_ms: self.max_latency_ms,
            samples_ms: samples_clone(&self.samples_ms),
        }
    }
}

impl Clone for BackendMetrics {
    fn clone(&self) -> (c: Self)
        ensures
            same_metrics(c, *self),
    {
        self.clone_metrics()
    }
}

/// `heapless::Vec::clone`: a window with the same samples.
#[verifier::external_body]
fn samples_clone(v: &heapless::Vec<u32, 64>) -> (r: heapless::Vec<u32, 64>)
    ensures
        sample_contents(r) == sample_contents(*v),
{
    v.clone()
}

/// The same counters and window.
pub open spec fn same_metrics(a: BackendMetrics, b: BackendMetrics) -> bool {
    &&& a.attempts == b.attempts && a.successes == b.successes && a.failures == b.failures
    &&& a.sum_latency_ms == b.sum_latency_ms
    &&& a.min_latency_ms == b.min_latency_ms && a.max_latency_ms == b.max_latency_ms
    &&& sample_contents(a.samples_ms) == sample_contents(b.samples_ms)
}

impl MetricsSink for InjectionMetrics {
    /// Counts an attempt, overall and for `backend`.
    fn emit_start(&mut self, backend: BackendId)
        ensures
            final(self).total_attempts == old(self).total_attempts.saturating_add(1),
            final(self).total_successes == old(self).total_successes,
            final(self).failures_by_kind == old(self).failures_by_kind,
            exists|pre: BackendMetrics, post: BackendMetrics| {
                &&& backend_changed(old(self).backend_metrics@, final(self).backend_metrics@, backend, pre, post)
                &&& post.attempts == pre.attempts.saturating_add(1)
                &&& post.successes == pre.successes && post.failures == pre.failures
                &&& post.sum_latency_ms == pre.sum_latency_ms
                &&& post.min_latency_ms == pre.min_latency_ms && post.max_latency_ms == pre.max_latency_ms
                &&& sample_contents(post.samples_ms) == sample_contents(pre.samples_ms)
            },
    {
        self.total_attempts = self.total_attempts.saturating_add(1);
        let (slot, mut m) = self.take_backend(backend);
        let ghost pre = m;
        m.attempts = m.attempts.saturating_add(1);
        let ghost post = m;
        self.put_backend(backend, slot, m);
        assert(backend_changed(old(self).backend_metrics@, self.backend_metrics@, backend, pre, post));
    }

    /// Counts a success of `backend` with its latency: the latency sum,
    /// minimum and maximum, and the sample window (a full window drops its
    /// oldest sample).
    fn emit_success(&mut self, backend: BackendId, latency_ms: u32)
        ensures
            final(self).total_attempts == old(self).total_attempts,
            final(self).total_successes == old(self).total_successes.saturating_add(1),
            final(self).failures_by_kind == old(self).failures_by_kind,
            exists|pre: BackendMetrics, post: BackendMetrics| {
                &&& backend_changed(old(self).backend_metrics@, final(self).backend_metrics@, backend, pre, post)
                &&& succeeded(pre, post, latency_ms)
            },
    {
        self.total_successes = self.total_successes.saturating_add(1);
        let (slot, mut m) = self.take_backend(backend);
        let ghost pre = m;
        m.successes = m.successes.saturating_add(1);
        m.sum_latency_ms = m.sum_latency_ms.saturating_add(latency_ms as u64);
        if m.min_latency_ms == 0 || latency_ms < m.min_latency_ms {
            m.min_latency_ms = latency_ms;
        }
        if latency_ms > m.max_latency_ms {
            m.max_latency_ms = latency_ms;
        }
        if samples_is_full(&m.samples_ms) {
            samples_remove_first(&mut m.samples_ms);
        }
        let _ = samples_push(&mut m.samples_ms, latency_ms);
        let ghost post = m;
        self.put_backend(backend, slot, m);
        assert(backend_changed(old(self).backend_metrics@, self.backend_metrics@, backend, pre, post));
        assert(succeeded(pre, post, latency_ms));
    }

    /// Counts a failure of `backend`, and the failure under the name of the
    /// error's variant.
    fn emit_fail(&mut self, backend: BackendId, err: &InjectionError)
        ensures
            final(self).total_attempts == old(self).total_attempts,
            final(self).total_successes == old(self).total_successes,
            kind_counted(old(self).failures_by_kind@, final(self).failures_by_kind@, error_kind_spec(*err)),
            exists|pre: BackendMetrics, post: BackendMetrics| {
                &&& backend_changed(old(self).backend_metrics@, final(self).backend_metrics@, backend, pre, post)
                &&& post.failures == pre.failures.saturating_add(1)
                &&& post.attempts == pre.attempts && post.successes == pre.successes
                &&& post.sum_latency_ms == pre.sum_latency_ms
                &&& post.min_latency_ms == pre.min_latency_ms && post.max_latency_ms == pre.max_latency_ms
                &&& sample_contents(post.samples_ms) == sample_contents(pre.samples_ms)
            },
    {
        let (slot, mut m) = self.take_backend(backend);
        let ghost pre = m;
        m.failures = m.failures.saturating_add(1);
        let ghost post = m;
        self.put_backend(backend, slot, m);
        assert(backend_changed(old(self).backend_metrics@, self.backend_metrics@, backend, pre, post));
        self.count_failure_kind(err.kind());
    }
}

} // verus!
