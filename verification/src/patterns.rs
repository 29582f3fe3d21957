//! Application allow/block patterns, which are regular expressions
//! interpreted by the `regex` crate.

use vstd::prelude::*;

verus! {

/// Whether `regex::Regex::new` accepts the pattern (syntax and size limit).
pub uninterp spec fn regex_compiles(pattern: Seq<char>) -> bool;

/// Whether the compiled pattern matches somewhere in the text.
pub uninterp spec fn regex_is_match(pattern: Seq<char>, text: Seq<char>) -> bool;

/// `regex::Regex::new(pattern).is_ok()`.
#[verifier::external_body]
pub(crate) fn pattern_compiles(pattern: &str) -> (r: bool)
    ensures
        r == regex_compiles(pattern@),
{
    regex::Regex::new(pattern).is_ok()
}

/// `Regex::is_match` on `text` of the pattern as `Regex::new` compiles it
/// (the pattern is known to compile, so the error arm is never taken): true
/// if and only if the pattern matches anywhere in the text. Patterns are kept
/// as text and compiled at each check.
#[verifier::external_body]
pub(crate) fn pattern_matches(pattern: &str, text: &str) -> (r: bool)
    requires
        regex_compiles(pattern@),
    ensures
        r == regex_is_match(pattern@, text@),
{
    match regex::Regex::new(pattern) {
        Ok(re) => re.is_match(text),
        Err(_) => false,
    }
}

/// The patterns of `ps` that compile, in order.
pub open spec fn compiling_patterns(ps: Seq<Seq<char>>) -> Seq<Seq<char>>
    decreases ps.len(),
{
    if ps.len() == 0 {
        ps
    } else if regex_compiles(ps.last()) {
        compiling_patterns(ps.drop_last()).push(ps.last())
    } else {
        compiling_patterns(ps.drop_last())
    }
}

/// Some pattern of `ps` matches `text`.
pub open spec fn any_matches(ps: Seq<Seq<char>>, text: Seq<char>) -> bool {
    exists|i: int| 0 <= i < ps.len() && #[trigger] regex_is_match(ps[i], text)
}

/// Keeps the patterns that compile; invalid ones are skipped.
pub fn compile_patterns(patterns: &Vec<String>) -> (r: Vec<String>)
    ensures
        crate::text::string_views(r@) == compiling_patterns(crate::text::string_views(patterns@)),
{
    let mut out: Vec<String> = Vec::new();
    let mut i: usize = 0;
    while i < patterns.len()
        invariant
            i <= patterns@.len(),
            crate::text::string_views(out@) == compiling_patterns(
                crate::text::string_views(patterns@).take(i as int),
            ),
        decreases patterns@.len() - i,
    {
        let ghost ps = crate::text::string_views(patterns@);
        proof {
            assert(ps.take(i + 1).drop_last() =~= ps.take(i as int));
            assert(ps.take(i + 1).last() == patterns@[i as int]@);
        }
        if pattern_compiles(patterns[i].as_str()) {
            out.push(patterns[i].clone());
            proof {
                assert(crate::text::string_views(out@) =~= compiling_patterns(ps.take(i as int)).push(
                    patterns@[i as int]@,
                ));
            }
        }
        i += 1;
    }
    assert(crate::text::string_views(patterns@).take(patterns@.len() as int) =~= crate::text::string_views(patterns@));
    out
}

/// Whether some (compiling) pattern matches `text`.
pub fn any_pattern_matches(patterns: &Vec<String>, text: &str) -> (r: bool)
    requires
        forall|i: int| 0 <= i < patterns@.len() ==> regex_compiles(#[trigger] patterns@[i]@),
    ensures
        r == any_matches(crate::text::string_views(patterns@), text@),
{
    let mut i: usize = 0;
    while i < patterns.len()
        invariant
            i <= patterns@.len(),
            forall|j: int| 0 <= j < patterns@.len() ==> regex_compiles(#[trigger] patterns@[j]@),
            forall|j: int| 0 <= j < i ==> !regex_is_match(#[trigger] patterns@[j]@, text@),
        decreases patterns@.len() - i,
    {
        if pattern_matches(patterns[i].as_str(), text) {
            assert(crate::text::string_views(patterns@)[i as int] == patterns@[i as int]@);
            return true;
        }
        i += 1;
    }
    assert forall|j: int| 0 <= j < patterns@.len() implies !regex_is_match(crate::text::string_views(patterns@)[j], text@) by {
        assert(crate::text::string_views(patterns@)[j] == patterns@[j]@);
    }
    false
}

/// Every pattern kept by `compiling_patterns` compiles.
pub proof fn lemma_compiling_patterns_compile(ps: Seq<Seq<char>>)
    ensures
        forall|i: int| 0 <= i < compiling_patterns(ps).len() ==> regex_compiles(#[trigger] compiling_patterns(ps)[i]),
    decreases ps.len(),
{
    if ps.len() > 0 {
        lemma_compiling_patterns_compile(ps.drop_last());
        let c = compiling_patterns(ps.drop_last());
        if regex_compiles(ps.last()) {
            assert forall|i: int| 0 <= i < compiling_patterns(ps).len() implies regex_compiles(
                #[trigger] compiling_patterns(ps)[i],
            ) by {
                if i < c.len() {
                    assert(compiling_patterns(ps)[i] == c[i]);
                }
            }
        }
    }
}

} // verus!
