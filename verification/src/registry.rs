//! The injectors that serve each method. The injectors themselves are
//! platform adapters; the registry only keeps at most one per method.

use crate::types::InjectionMethod;
use vstd::prelude::*;

verus! {

/// Each method occurs at most once.
pub open spec fn unique_registry_methods<T>(s: Seq<(InjectionMethod, T)>) -> bool {
    forall|i: int, j: int| 0 <= i < j < s.len() ==> s[i].0 != s[j].0
}

/// The injector registered for each method.
pub open spec fn registry_view<T>(s: Seq<(InjectionMethod, T)>) -> Map<InjectionMethod, T> {
    Map::new(
        |m: InjectionMethod| exists|i: int| 0 <= i < s.len() && s[i].0 == m,
        |m: InjectionMethod| s[choose|i: int| 0 <= i < s.len() && s[i].0 == m].1,
    )
}

/// Registry of available text injectors, keyed by method.
pub struct InjectorRegistry<T> {
    entries: Vec<(InjectionMethod, T)>,
}

impl<T> InjectorRegistry<T> {
    pub closed spec fn wf(&self) -> bool {
        unique_registry_methods(self.entries@)
    }

    /// The injector of each registered method.
    pub closed spec fn view(&self) -> Map<InjectionMethod, T> {
        registry_view(self.entries@)
    }

    /// An empty registry.
    pub fn new() -> (r: Self)
        ensures
            r.wf(),
            r.view() == Map::<InjectionMethod, T>::empty(),
    {
        let r = InjectorRegistry { entries: Vec::new() };
        assert(r.view() =~= Map::<InjectionMethod, T>::empty());
        r
    }

    fn index_of(&self, method: InjectionMethod) -> (r: Option<usize>)
        requires
            self.wf(),
        ensures
            r is None == !self.view().contains_key(method),
            r matches Some(i) ==> i < self.entries@.len() && self.entries@[i as int].0 == method
                && self.view()[method] == self.entries@[i as int].1,
    {
        let n = self.entries.len();
        let mut i: usize = 0;
        while i < n
            invariant
                n == self.entries@.len(),
                i <= n,
                unique_registry_methods(self.entries@),
                forall|k: int| 0 <= k < i ==> self.entries@[k].0 != method,
            decreases n - i,
        {
            if self.entries[i].0 == method {
                proof {
                    let c = choose|k: int| 0 <= k < self.entries@.len() && self.entries@[k].0 == method;
                    assert(c == i as int);
                }
                return Some(i);
            }
            i += 1;
        }
        None
    }

    /// The injector of `method`, if one is registered.
    pub fn get(&self, method: InjectionMethod) -> (r: Option<&T>)
        requires
            self.wf(),
        ensures
            r is Some == self.view().contains_key(method),
            r matches Some(t) ==> *t == self.view()[method],
    {
        match self.index_of(method) {
            Some(i) => Some(&self.entries[i].1),
            None => None,
        }
    }

    /// Whether an injector is registered for `method`.
    pub fn contains(&self, method: InjectionMethod) -> (r: bool)
        requires
            self.wf(),
        ensures
            r == self.view().contains_key(method),
    {
        self.index_of(method).is_some()
    }

    /// Registers `injector` for `method`, replacing an earlier one.
    pub fn insert(&mut self, method: InjectionMethod, injector: T)
        requires
            old(self).wf(),
        ensures
            final(self).wf(),
            final(self).view() == old(self).view().insert(method, injector),
    {
        match self.index_of(method) {
            Some(i) => {
                let ghost pre = self.entries@;
                self.entries.set(i, (method, injector));
                proof {
                    let post = self.entries@;
                    assert(post == pre.update(i as int, (method, injector)));
                    assert forall|m: InjectionMethod| #[trigger] registry_view(post).contains_key(m) == registry_view(pre).insert(method, injector).contains_key(m) by {
                        if m != method {
                            if registry_view(pre).contains_key(m) {
                                let k = choose|k: int| 0 <= k < pre.len() && pre[k].0 == m;
                                assert(post[k].0 == m);
                            }
                        } else {
                            assert(post[i as int].0 == m);
                        }
                    }
                    assert forall|m: InjectionMethod| #[trigger] registry_view(post).contains_key(m) implies registry_view(post)[m] == registry_view(pre).insert(method, injector)[m] by {
                        let k = choose|k: int| 0 <= k < post.len() && post[k].0 == m;
                        if m == method {
                            assert(k == i as int);
                        } else {
                            assert(pre[k].0 == m);
                            let k2 = choose|k2: int| 0 <= k2 < pre.len() && pre[k2].0 == m;
                            assert(k2 == k);
                        }
                    }
                    assert(registry_view(post) =~= registry_view(pre).insert(method, injector));
                }
            },
            None => {
                let ghost pre = self.entries@;
                self.entries.push((method, injector));
                proof {
                    let post = self.entries@;
                    assert(post == pre.push((method, injector)));
                    assert forall|m: InjectionMethod| #[trigger] registry_view(post).contains_key(m) == registry_view(pre).insert(method, injector).contains_key(m) by {
                        if m != method {
                            if registry_view(pre).contains_key(m) {
                                let k = choose|k: int| 0 <= k < pre.len() && pre[k].0 == m;
                                assert(post[k].0 == m);
                            }
                            if registry_view(post).contains_key(m) {
                                let k = choose|k: int| 0 <= k < post.len() && post[k].0 == m;
                                assert(k < pre.len());
                                assert(pre[k].0 == m);
                            }
                        } else {
                            assert(post[pre.len() as int].0 == m);
                        }
                    }
                    assert forall|m: InjectionMethod| #[trigger] registry_view(post).contains_key(m) implies registry_view(post)[m] == registry_view(pre).insert(method, injector)[m] by {
                        let k = choose|k: int| 0 <= k < post.len() && post[k].0 == m;
                        if m == method {
                            assert(k == pre.len() as int);
                        } else {
                            assert(k < pre.len());
                            assert(pre[k].0 == m);
                            let k2 = choose|k2: int| 0 <= k2 < pre.len() && pre[k2].0 == m;
                            assert(k2 == k);
                        }
                    }
                    assert(registry_view(post) =~= registry_view(pre).insert(method, injector));
                }
            },
        }
    }

    /// Whether no injector is registered.
    pub fn is_empty(&self) -> (r: bool)
        ensures
            r == (self.view().dom() == Set::<InjectionMethod>::empty()),
    {
        proof {
            if self.entries@.len() > 0 {
                assert(self.view().contains_key(self.entries@[0].0));
            } else {
                assert(self.view().dom() =~= Set::<InjectionMethod>::empty());
            }
        }
        self.entries.len() == 0
    }

    /// The methods that have an injector, in registration order.
    pub fn methods(&self) -> (v: Vec<InjectionMethod>)
        ensures
            forall|m: InjectionMethod| v@.contains(m) == self.view().contains_key(m),
    {
        let n = self.entries.len();
        let mut v: Vec<InjectionMethod> = Vec::new();
        let mut i: usize = 0;
        while i < n
            invariant
                n == self.entries@.len(),
                i <= n,
                v@.len() == i,
                forall|k: int| 0 <= k < i ==> v@[k] == self.entries@[k].0,
            decreases n - i,
        {
            v.push(self.entries[i].0);
            i += 1;
        }
        proof {
            assert forall|m: InjectionMethod| v@.contains(m) == self.view().contains_key(m) by {
                if v@.contains(m) {
                    let k = choose|k: int| 0 <= k < v@.len() && v@[k] == m;
                    assert(self.entries@[k].0 == m);
                }
                if self.view().contains_key(m) {
                    let k = choose|k: int| 0 <= k < self.entries@.len() && self.entries@[k].0 == m;
                    assert(v@[k] == m);
                }
            }
        }
        v
    }

    /// Registers `noop` for `NoOp` when nothing else was registered, so
    /// that a registry never ends up empty.
    pub fn ensure_fallback(&mut self, noop: T)
        requires
            old(self).wf(),
        ensures
            final(self).wf(),
            final(self).view() == (if old(self).view().dom() == Set::<InjectionMethod>::empty() {
                old(self).view().insert(InjectionMethod::NoOp, noop)
            } else {
                old(self).view()
            }),
    {
        if self.is_empty() {
            self.insert(InjectionMethod::NoOp, noop);
        }
    }
}

/// A registry that has been given its fallback is never empty: it keeps
/// what it had, and holds the no-op injector when it had nothing.
pub proof fn lemma_fallback_never_empty<T>(before: Map<InjectionMethod, T>, noop: T)
    ensures
        ({
            let after = if before.dom() == Set::<InjectionMethod>::empty() {
                before.insert(InjectionMethod::NoOp, noop)
            } else {
                before
            };
            &&& after.dom() != Set::<InjectionMethod>::empty()
            &&& forall|m: InjectionMethod| before.contains_key(m) ==> #[trigger] after.contains_key(m) && after[m] == before[m]
        }),
{
    if before.dom() == Set::<InjectionMethod>::empty() {
        let after = before.insert(InjectionMethod::NoOp, noop);
        assert(after.dom().contains(InjectionMethod::NoOp));
    }
}

} // verus!
