//! Identification of the application that has the focus.

use crate::text::{chars_of, occurs_at, string_from_chars, trim, trim_chars};
use vstd::prelude::*;
use vstd::string::StringExecFns;

verus! {

/// A node of the compositor's window tree.
#[derive(Debug)]
pub struct WindowNode {
    /// The node has the focus.
    pub focused: bool,
    /// The application id of the node, if it is a window.
    pub app_id: Option<String>,
    /// Child nodes.
    pub nodes: Vec<WindowNode>,
}

/// The application id of the focused window, searching the tree depth first.
pub open spec fn focused_app(node: WindowNode) -> Option<Seq<char>>
    decreases node,
{
    if node.focused && node.app_id is Some {
        Some(node.app_id->0@)
    } else {
        focused_app_in(node.nodes@, 0)
    }
}

/// The first focused application among `nodes` from position `i` on.
pub open spec fn focused_app_in(nodes: Seq<WindowNode>, i: int) -> Option<Seq<char>>
    decreases nodes, nodes.len() - i,
{
    if 0 <= i < nodes.len() {
        match focused_app(nodes[i]) {
            Some(a) => Some(a),
            None => focused_app_in(nodes, i + 1),
        }
    } else {
        None
    }
}


/// The application id of the focused window of the tree: the node itself
/// when it is focused and has an application id, else the first child
/// subtree that has one.
pub fn find_focused_window(node: &WindowNode) -> (r: Option<String>)
    ensures
        match r {
            Some(a) => focused_app(*node) == Some(a@),
            None => focused_app(*node) is None,
        },
    decreases node,
{
    if node.focused {
        if let Some(a) = &node.app_id {
            return Some(a.clone());
        }
    }
    let n = node.nodes.len();
    let mut i: usize = 0;
    while i < n
        invariant
            n == node.nodes@.len(),
            i <= n,
            focused_app(*node) == focused_app_in(node.nodes@, i as int),
        decreases n - i,
    {
        proof {
            assert(decreases_to!(*node => node.nodes));
            assert(decreases_to!(node.nodes => node.nodes@));
            assert(decreases_to!(node.nodes@ => node.nodes@[i as int]));
        }
        let found = find_focused_window(&node.nodes[i]);
        if found.is_some() {
            return found;
        }
        i += 1;
    }
    None
}


/// The first position at which `sep` occurs in `s`.
pub open spec fn first_occurrence(s: Seq<char>, sep: Seq<char>) -> Option<int> {
    if exists|i: int| occurs_at(s, sep, i) && forall|j: int| 0 <= j < i ==> !occurs_at(s, sep, j) {
        Some(choose|i: int| occurs_at(s, sep, i) && forall|j: int| 0 <= j < i ==> !occurs_at(s, sep, j))
    } else {
        None
    }
}

/// Field `n` of `s` split at `sep`, as `str::split(sep).nth(n)` gives it
/// for a non-empty separator.
#[verifier::opaque]
pub open spec fn nth_field(s: Seq<char>, sep: Seq<char>, n: nat) -> Option<Seq<char>>
    decreases n,
{
    match first_occurrence(s, sep) {
        Some(i) => if n == 0 {
            Some(s.take(i))
        } else {
            nth_field(s.skip(i + sep.len()), sep, (n - 1) as nat)
        },
        None => if n == 0 {
            Some(s)
        } else {
            None
        },
    }
}

/// The first occurrence of `sep` in `h` at or after `start`.
fn find_from(h: &Vec<char>, sep: &Vec<char>, start: usize) -> (r: Option<usize>)
    requires
        sep@.len() > 0,
        start <= h@.len(),
    ensures
        match r {
            Some(j) => start <= j && occurs_at(h@, sep@, j as int) && forall|k: int|
                start <= k < j ==> !occurs_at(h@, sep@, k),
            None => forall|k: int| start <= k ==> !occurs_at(h@, sep@, k),
        },
{
    let hl = h.len();
    let sl = sep.len();
    if sl > hl - start {
        return None;
    }
    let last = hl - sl;
    let mut i: usize = start;
    while i <= last
        invariant
            hl == h@.len(),
            sl == sep@.len(),
            0 < sl <= hl,
            last == hl - sl,
            start <= i <= last + 1,
            forall|k: int| start <= k < i ==> !occurs_at(h@, sep@, k),
        decreases last + 1 - i,
    {
        let mut j: usize = 0;
        while j < sl && h[i + j] == sep[j]
            invariant
                hl == h@.len(),
                sl == sep@.len(),
                i <= last,
                last == hl - sl,
                j <= sl,
                forall|t: int| 0 <= t < j ==> h@[i + t] == sep@[t],
            decreases sl - j,
        {
            j += 1;
        }
        if j == sl {
            assert(h@.subrange(i as int, i + sep@.len()) =~= sep@);
            return Some(i);
        }
        proof {
            assert(h@.subrange(i as int, i + sep@.len())[j as int] != sep@[j as int]);
        }
        i += 1;
    }
    None
}

/// Occurrences in a suffix are occurrences in the whole shifted by its start.
proof fn lemma_occurs_skip(h: Seq<char>, sep: Seq<char>, start: int, i: int)
    requires
        0 <= start <= h.len(),
        0 <= i,
    ensures
        occurs_at(h.skip(start), sep, i) == occurs_at(h, sep, start + i),
{
    if i + sep.len() <= h.len() - start {
        assert(h.skip(start).subrange(i, i + sep.len()) =~= h.subrange(start + i, start + i + sep.len()));
    }
}

/// What `find_from` finds is the first occurrence in the suffix.
proof fn lemma_first_in_suffix(h: Seq<char>, sep: Seq<char>, start: int, found: Option<int>)
    requires
        0 <= start <= h.len(),
        match found {
            Some(j) => start <= j && occurs_at(h, sep, j) && forall|k: int| start <= k < j ==> !occurs_at(h, sep, k),
            None => forall|k: int| start <= k ==> !occurs_at(h, sep, k),
        },
    ensures
        first_occurrence(h.skip(start), sep) == match found {
            Some(j) => Some(j - start),
            None => None::<int>,
        },
{
    let t = h.skip(start);
    match found {
        Some(j) => {
            lemma_occurs_skip(h, sep, start, j - start);
            assert forall|k: int| 0 <= k < j - start implies !occurs_at(t, sep, k) by {
                lemma_occurs_skip(h, sep, start, k);
            }
            let c = choose|i: int| occurs_at(t, sep, i) && forall|k: int| 0 <= k < i ==> !occurs_at(t, sep, k);
            if c < j - start {
            } else if c > j - start {
                assert(!occurs_at(t, sep, j - start));
            }
        },
        None => {
            assert forall|i: int| !occurs_at(t, sep, i) by {
                if i >= 0 {
                    lemma_occurs_skip(h, sep, start, i);
                }
            }
        },
    }
}

/// One step of the definition of `nth_field`.
pub proof fn lemma_nth_field_unfold(t: Seq<char>, sep: Seq<char>, m: nat)
    ensures
        nth_field(t, sep, m) == match first_occurrence(t, sep) {
            Some(i) => if m == 0 {
                Some(t.take(i))
            } else {
                nth_field(t.skip(i + sep.len()), sep, (m - 1) as nat)
            },
            None => if m == 0 {
                Some(t)
            } else {
                None
            },
        },
{
    reveal(nth_field);
}

fn vec_range(v: &Vec<char>, from: usize, to: usize) -> (r: Vec<char>)
    requires
        from <= to <= v@.len(),
    ensures
        r@ == v@.subrange(from as int, to as int),
{
    let mut r: Vec<char> = Vec::new();
    let mut i = from;
    while i < to
        invariant
            from <= i <= to,
            to <= v@.len(),
            r@ == v@.subrange(from as int, i as int),
        decreases to - i,
    {
        r.push(v[i]);
        proof {
            assert(r@ =~= v@.subrange(from as int, i + 1));
        }
        i += 1;
    }
    r
}

/// Field `n` of `s` split at the non-empty separator `sep`.
pub fn split_nth(s: &str, sep: &str, n: usize) -> (r: Option<String>)
    requires
        sep@.len() > 0,
    ensures
        match nth_field(s@, sep@, n as nat) {
            Some(f) => r matches Some(x) && x@ == f,
            None => r is None,
        },
{
    let h = chars_of(s);
    let p = chars_of(sep);
    let hl = h.len();
    let mut start: usize = 0;
    let mut k: usize = 0;
    assert(h@.skip(0) =~= h@);
    while k < n
        invariant
            h@ == s@,
            p@ == sep@,
            p@.len() > 0,
            hl == h@.len(),
            start <= h@.len(),
            k <= n,
            h@.len() <= usize::MAX,
            nth_field(s@, sep@, n as nat) == nth_field(h@.skip(start as int), sep@, (n - k) as nat),
        decreases n - k,
    {
        let found = find_from(&h, &p, start);
        proof {
            lemma_first_in_suffix(h@, p@, start as int, match found { Some(j) => Some(j as int), None => None::<int> });
        }
        match found {
            Some(j) => {
                proof {
                    lemma_nth_field_unfold(h@.skip(start as int), p@, (n - k) as nat);
                    assert(h@.skip(start as int).skip(j - start + p@.len()) =~= h@.skip(j + p@.len()));
                }
                start = j + p.len();
                k += 1;
            },
            None => {
                proof {
                    lemma_nth_field_unfold(h@.skip(start as int), p@, (n - k) as nat);
                }
                return None;
            },
        }
    }
    let found = find_from(&h, &p, start);
    proof {
        lemma_first_in_suffix(h@, p@, start as int, match found { Some(j) => Some(j as int), None => None::<int> });
        lemma_nth_field_unfold(h@.skip(start as int), p@, 0);
    }
    match found {
        Some(j) => {
            let f = vec_range(&h, start, j);
            proof {
                assert(h@.skip(start as int).take(j - start) =~= h@.subrange(start as int, j as int));
            }
            Some(string_from_chars(&f))
        },
        None => {
            let f = vec_range(&h, start, hl);
            proof {
                assert(h@.skip(start as int) =~= h@.subrange(start as int, h@.len() as int));
            }
            Some(string_from_chars(&f))
        },
    }
}

/// The window id in `xprop -root _NET_ACTIVE_WINDOW` output: the text after
/// the first "# ", up to a further "# ", trimmed.
pub fn parse_active_window_id(output: &str) -> (r: Option<String>)
    ensures
        match nth_field(output@, "# "@, 1) {
            Some(f) => r matches Some(x) && x@ == trim(f),
            None => r is None,
        },
{
    proof {
        reveal_strlit("# ");
    }
    match split_nth(output, "# ", 1) {
        Some(field) => {
            let chars = chars_of(field.as_str());
            let t = trim_chars(&chars);
            Some(string_from_chars(&t))
        },
        None => None,
    }
}

/// The class in `xprop -id <window> WM_CLASS` output: the fourth field
/// between double quotes (the class after the instance name).
pub fn parse_wm_class(output: &str) -> (r: Option<String>)
    ensures
        match nth_field(output@, "\""@, 3) {
            Some(f) => r matches Some(x) && x@ == f,
            None => r is None,
        },
{
    proof {
        reveal_strlit("\"");
    }
    split_nth(output, "\"", 3)
}


/// The part of `p` after its last '/' (all of it when there is none), as
/// `str::rsplit('/').next()` gives it.
pub open spec fn last_segment(p: Seq<char>) -> Seq<char>
    decreases p.len(),
{
    if p.len() == 0 {
        p
    } else if p.last() == '/' {
        Seq::empty()
    } else {
        last_segment(p.drop_last()).push(p.last())
    }
}

/// The application id of a focused accessible object: its bus name when
/// not empty, else the last segment of its object path when not empty.
pub fn app_id_from_accessible(name: Option<&str>, path: &str) -> (r: Option<String>)
    ensures
        match name {
            Some(n) if n@.len() > 0 => r matches Some(x) && x@ == n@,
            _ => if last_segment(path@).len() > 0 {
                r matches Some(x) && x@ == last_segment(path@)
            } else {
                r is None
            },
        },
{
    if let Some(n) = name {
        if !n.is_empty() {
            return Some(String::from_str(n));
        }
    }
    let v = chars_of(path);
    let len = v.len();
    let mut i = len;
    proof {
        assert(v@.take(len as int) =~= v@);
        assert(v@.skip(len as int) =~= Seq::<char>::empty());
        assert(last_segment(v@) + Seq::<char>::empty() =~= last_segment(v@));
    }
    while i > 0 && v[i - 1] != '/'
        invariant
            v@ == path@,
            len == v@.len(),
            i <= len,
            last_segment(v@) == last_segment(v@.take(i as int)) + v@.skip(i as int),
        decreases i,
    {
        proof {
            let t = v@.take(i as int);
            assert(t.drop_last() =~= v@.take(i - 1));
            assert(t.last() == v@[i - 1]);
            assert(v@.skip(i - 1) =~= seq![v@[i - 1]] + v@.skip(i as int));
            assert(last_segment(t) == last_segment(v@.take(i - 1)).push(v@[i - 1]));
            assert(last_segment(v@.take(i - 1)).push(v@[i - 1]) + v@.skip(i as int) =~= last_segment(
                v@.take(i - 1),
            ) + v@.skip(i - 1));
        }
        i -= 1;
    }
    proof {
        let t = v@.take(i as int);
        if i == 0 {
            assert(t =~= Seq::<char>::empty());
        } else {
            assert(t.last() == '/');
        }
        assert(last_segment(t) =~= Seq::<char>::empty());
        assert(last_segment(v@) =~= v@.skip(i as int));
    }
    if i == len {
        return None;
    }
    let seg = vec_range(&v, i, len);
    proof {
        assert(v@.skip(i as int) =~= v@.subrange(i as int, len as int));
    }
    Some(string_from_chars(&seg))
}

/// The application id that an injection uses: the accessibility bus's
/// answer, else the window manager's, else "unknown".
pub fn choose_app_id(from_accessibility: Option<String>, from_window_manager: Option<String>) -> (r: String)
    ensures
        r@ == match from_accessibility {
            Some(a) => a@,
            None => match from_window_manager {
                Some(w) => w@,
                None => "unknown"@,
            },
        },
{
    match from_accessibility {
        Some(a) => a,
        None => match from_window_manager {
            Some(w) => w,
            None => String::from_str("unknown"),
        },
    }
}

} // verus!
