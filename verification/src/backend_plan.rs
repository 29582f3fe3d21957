//! The documented fallback chain: AT-SPI, then clipboard plus paste, then
//! clipboard, then the opt-in input simulators, with `NoOp` always last.

use crate::backend::Backend;
use crate::types::{InjectionConfig, InjectionMethod};
use vstd::prelude::*;

verus! {

/// A backend that indicates a usable desktop session.
pub open spec fn is_desktop_backend(b: Backend) -> bool {
    match b {
        Backend::WaylandXdgDesktopPortal | Backend::WaylandVirtualKeyboard | Backend::X11Xdotool
        | Backend::X11Native | Backend::MacCgEvent | Backend::WindowsSendInput => true,
        _ => false,
    }
}

/// Some available backend indicates a desktop session.
pub open spec fn has_desktop_backend(avail: Seq<Backend>) -> bool {
    exists|i: int| 0 <= i < avail.len() && #[trigger] is_desktop_backend(avail[i])
}

/// `s` with every element after its first occurrence removed.
pub open spec fn dedup(s: Seq<InjectionMethod>) -> Seq<InjectionMethod>
    decreases s.len(),
{
    if s.len() == 0 {
        s
    } else {
        let d = dedup(s.drop_last());
        if d.contains(s.last()) {
            d
        } else {
            d.push(s.last())
        }
    }
}

/// `s` followed by `NoOp`, unless it already holds `NoOp`.
pub open spec fn with_noop(s: Seq<InjectionMethod>) -> Seq<InjectionMethod> {
    if s.contains(InjectionMethod::NoOp) {
        s
    } else {
        s.push(InjectionMethod::NoOp)
    }
}

/// The methods before deduplication: the desktop chain when a desktop
/// backend is available, then the opt-in methods that the configuration allows.
pub open spec fn plan_base(config: InjectionConfig, avail: Seq<Backend>) -> Seq<InjectionMethod> {
    (if has_desktop_backend(avail) {
        seq![
            InjectionMethod::AtspiInsert,
            InjectionMethod::ClipboardAndPaste,
            InjectionMethod::Clipboard,
        ]
    } else {
        seq![]
    }) + (if config.allow_kdotool { seq![InjectionMethod::KdoToolAssist] } else { seq![] }) + (
    if config.allow_enigo {
        seq![InjectionMethod::EnigoText]
    } else {
        seq![]
    }) + (if config.allow_ydotool { seq![InjectionMethod::YdoToolPaste] } else { seq![] })
}

/// The plan that `plan_backends` returns.
pub open spec fn plan_spec(config: InjectionConfig, avail: Seq<Backend>) -> Seq<InjectionMethod> {
    with_noop(dedup(plan_base(config, avail)))
}

/// No element occurs twice.
pub open spec fn no_duplicates(s: Seq<InjectionMethod>) -> bool {
    forall|i: int, j: int| 0 <= i < j < s.len() ==> s[i] != s[j]
}

/// Whether `v` holds `m`.
pub fn contains_method(v: &Vec<InjectionMethod>, m: InjectionMethod) -> (r: bool)
    ensures
        r == v@.contains(m),
{
    let mut i: usize = 0;
    while i < v.len()
        invariant
            i <= v@.len(),
            forall|k: int| 0 <= k < i ==> v@[k] != m,
        decreases v@.len() - i,
    {
        if v[i] == m {
            return true;
        }
        i += 1;
    }
    false
}

/// Removes repeated methods, keeping the first occurrence of each in place.
pub fn dedup_methods(v: &Vec<InjectionMethod>) -> (r: Vec<InjectionMethod>)
    ensures
        r@ == dedup(v@),
{
    let mut out: Vec<InjectionMethod> = Vec::new();
    let mut i: usize = 0;
    while i < v.len()
        invariant
            i <= v@.len(),
            out@ == dedup(v@.take(i as int)),
        decreases v@.len() - i,
    {
        proof {
            assert(v@.take(i + 1).drop_last() =~= v@.take(i as int));
            assert(v@.take(i + 1).last() == v@[i as int]);
        }
        if !contains_method(&out, v[i]) {
            out.push(v[i]);
        }
        i += 1;
    }
    assert(v@.take(v@.len() as int) =~= v@);
    out
}

/// Whether some available backend indicates a desktop session.
pub fn any_desktop_backend(avail: &Vec<Backend>) -> (r: bool)
    ensures
        r == has_desktop_backend(avail@),
{
    let mut i: usize = 0;
    while i < avail.len()
        invariant
            i <= avail@.len(),
            forall|k: int| 0 <= k < i ==> !is_desktop_backend(#[trigger] avail@[k]),
        decreases avail@.len() - i,
    {
        let b = avail[i];
        let desktop = match b {
            Backend::WaylandXdgDesktopPortal | Backend::WaylandVirtualKeyboard
            | Backend::X11Xdotool | Backend::X11Native | Backend::MacCgEvent
            | Backend::WindowsSendInput => true,
            _ => false,
        };
        if desktop {
            assert(is_desktop_backend(avail@[i as int]));
            return true;
        }
        i += 1;
    }
    false
}

/// The prioritised, duplicate-free list of methods to try given the
/// available backends and the configuration; `NoOp` is always included last.
pub fn plan_backends(config: &InjectionConfig, available_backends: &Vec<Backend>) -> (plan: Vec<
    InjectionMethod,
>)
    ensures
        plan@ == plan_spec(*config, available_backends@),
{
    let mut base_order: Vec<InjectionMethod> = Vec::new();
    if any_desktop_backend(available_backends) {
        base_order.push(InjectionMethod::AtspiInsert);
        base_order.push(InjectionMethod::ClipboardAndPaste);
        base_order.push(InjectionMethod::Clipboard);
    }
    if config.allow_kdotool {
        base_order.push(InjectionMethod::KdoToolAssist);
    }
    if config.allow_enigo {
        base_order.push(InjectionMethod::EnigoText);
    }
    if config.allow_ydotool {
        base_order.push(InjectionMethod::YdoToolPaste);
    }
    assert(base_order@ =~= plan_base(*config, available_backends@));
    let mut order = dedup_methods(&base_order);
    if !contains_method(&order, InjectionMethod::NoOp) {
        order.push(InjectionMethod::NoOp);
    }
    order
}

/// The deduplicated sequence has no duplicates and the same elements.
pub proof fn lemma_dedup(s: Seq<InjectionMethod>)
    ensures
        no_duplicates(dedup(s)),
        forall|m: InjectionMethod| dedup(s).contains(m) <==> s.contains(m),
        no_duplicates(s) ==> dedup(s) == s,
    decreases s.len(),
{
    if s.len() > 0 {
        let p = s.drop_last();
        lemma_dedup(p);
        assert(s =~= p.push(s.last()));
        assert forall|m: InjectionMethod| dedup(s).contains(m) <==> s.contains(m) by {
            lemma_push_contains(p, s.last(), m);
            lemma_push_contains(dedup(p), s.last(), m);
        }
        assert(no_duplicates(dedup(s))) by {
            if !dedup(p).contains(s.last()) {
                let d = dedup(p).push(s.last());
                assert forall|i: int, j: int| 0 <= i < j < d.len() implies d[i] != d[j] by {
                    if j == d.len() - 1 {
                        assert(dedup(p)[i] == d[i]);
                    }
                }
            }
        }
        if no_duplicates(s) {
            assert(no_duplicates(p));
            assert(!p.contains(s.last())) by {
                if p.contains(s.last()) {
                    let k = choose|k: int| 0 <= k < p.len() && p[k] == s.last();
                    assert(s[k] == s[s.len() - 1]);
                }
            }
            assert(dedup(s) =~= s);
        }
    } else {
        assert(dedup(s) =~= s);
    }
}

proof fn lemma_push_contains(q: Seq<InjectionMethod>, x: InjectionMethod, m: InjectionMethod)
    ensures
        q.push(x).contains(m) <==> (q.contains(m) || m == x),
{
    if q.contains(m) {
        let k = choose|k: int| 0 <= k < q.len() && q[k] == m;
        assert(q.push(x)[k] == m);
    }
    if m == x {
        assert(q.push(x)[q.len() as int] == m);
    }
    if q.push(x).contains(m) {
        let k = choose|k: int| 0 <= k < q.push(x).len() && q.push(x)[k] == m;
        if k < q.len() {
            assert(q[k] == m);
        }
    }
}

/// A plan has no repeated method, ends with `NoOp`, and holds `NoOp` once.
pub proof fn lemma_plan_shape(config: InjectionConfig, avail: Seq<Backend>)
    ensures
        no_duplicates(plan_spec(config, avail)),
        plan_spec(config, avail).len() > 0,
        plan_spec(config, avail).last() == InjectionMethod::NoOp,
        plan_spec(config, avail) == plan_base(config, avail).push(InjectionMethod::NoOp),
{
    let base = plan_base(config, avail);
    assert(no_duplicates(base));
    lemma_dedup(base);
    assert(!base.contains(InjectionMethod::NoOp));
    assert(with_noop(base) == base.push(InjectionMethod::NoOp));
    assert(no_duplicates(base.push(InjectionMethod::NoOp)));
}

} // verus!
