//! Exponential backoff in exact integer arithmetic: the cooldown after
//! `level` backoff steps is the initial length times the factor (in
//! thousandths) to the power `level`, rounded down once and capped. The
//! product is held as a big number in base-1000 digits, so no intermediate
//! rounding or overflow occurs.

use vstd::arithmetic::div_mod::{lemma_div_denominator, lemma_div_is_ordered, lemma_fundamental_div_mod_converse};
use vstd::prelude::*;

verus! {

/// `b` to the power `e`.
pub open spec fn power(b: int, e: nat) -> int
    decreases e,
{
    if e == 0 {
        1
    } else {
        b * power(b, (e - 1) as nat)
    }
}

/// `base × (factor_permille / 1000)^level`, rounded down.
pub open spec fn backoff_exact(base: u64, factor_permille: u64, level: nat) -> int {
    (base as int * power(factor_permille as int, level)) / power(1000, level)
}

/// `v` capped at `max`.
pub open spec fn capped(v: int, max: u64) -> u64 {
    if v < max {
        v as u64
    } else {
        max
    }
}

/// The value of little-endian base-1000 digits.
pub open spec fn digits_val(s: Seq<u64>) -> int
    decreases s.len(),
{
    if s.len() == 0 {
        0
    } else {
        s[0] + 1000 * digits_val(s.drop_first())
    }
}

/// Every digit is below 1000.
pub open spec fn small_digits(s: Seq<u64>) -> bool {
    forall|i: int| 0 <= i < s.len() ==> #[trigger] s[i] < 1000
}

/// The value of the digits from position `k` on (zero past the end).
pub open spec fn high_part(s: Seq<u64>, k: int) -> int {
    if k >= s.len() {
        0
    } else {
        digits_val(s.skip(k))
    }
}

proof fn lemma_power_pos(b: int, e: nat)
    requires
        b > 0,
    ensures
        power(b, e) > 0,
    decreases e,
{
    if e > 0 {
        lemma_power_pos(b, (e - 1) as nat);
        assert(b * power(b, (e - 1) as nat) > 0) by (nonlinear_arith)
            requires
                b > 0,
                power(b, (e - 1) as nat) > 0,
        ;
    }
}

proof fn lemma_power_nonneg(b: int, e: nat)
    requires
        b >= 0,
    ensures
        power(b, e) >= 0,
    decreases e,
{
    if e > 0 {
        lemma_power_nonneg(b, (e - 1) as nat);
        assert(b * power(b, (e - 1) as nat) >= 0) by (nonlinear_arith)
            requires
                b >= 0,
                power(b, (e - 1) as nat) >= 0,
        ;
    }
}

proof fn lemma_power1000_monotone(a: nat, b: nat)
    requires
        a <= b,
    ensures
        power(1000, a) <= power(1000, b),
    decreases b,
{
    if a < b {
        lemma_power1000_monotone(a, (b - 1) as nat);
        lemma_power_pos(1000, (b - 1) as nat);
    }
}

proof fn lemma_digits_nonneg(s: Seq<u64>)
    ensures
        digits_val(s) >= 0,
    decreases s.len(),
{
    if s.len() > 0 {
        lemma_digits_nonneg(s.drop_first());
    }
}

/// Appending a digit adds it at the next power of 1000.
proof fn lemma_digits_push(s: Seq<u64>, d: u64)
    ensures
        digits_val(s.push(d)) == digits_val(s) + d * power(1000, s.len()),
    decreases s.len(),
{
    if s.len() == 0 {
        assert(s.push(d).drop_first() =~= Seq::<u64>::empty());
        assert(power(1000, 0) == 1);
        assert(digits_val(s.push(d)) == d + 1000 * digits_val(Seq::<u64>::empty()));
    } else {
        let r = s.drop_first();
        lemma_digits_push(r, d);
        assert(s.push(d).drop_first() =~= r.push(d));
        assert(s.push(d)[0] == s[0]);
        let p = power(1000, r.len());
        assert(power(1000, s.len()) == 1000 * p);
        assert(1000 * (digits_val(r) + d * p) == 1000 * digits_val(r) + d * (1000 * p)) by (nonlinear_arith);
    }
}

/// The digits below position `k` and those from `k` on.
proof fn lemma_digits_split(s: Seq<u64>, k: int)
    requires
        0 <= k <= s.len(),
        small_digits(s),
    ensures
        digits_val(s) == digits_val(s.take(k)) + power(1000, k as nat) * digits_val(s.skip(k)),
        0 <= digits_val(s.take(k)) < power(1000, k as nat),
    decreases k,
{
    if k == 0 {
        assert(s.take(0) =~= Seq::<u64>::empty());
        assert(s.skip(0) =~= s);
    } else {
        let r = s.drop_first();
        assert(small_digits(r)) by {
            assert forall|i: int| 0 <= i < r.len() implies #[trigger] r[i] < 1000 by {
                assert(r[i] == s[i + 1]);
            }
        }
        lemma_digits_split(r, k - 1);
        assert(s.take(k).drop_first() =~= r.take(k - 1));
        assert(s.take(k)[0] == s[0]);
        assert(s.skip(k) =~= r.skip(k - 1));
        let a = digits_val(r.take(k - 1));
        let q = digits_val(r.skip(k - 1));
        let p = power(1000, (k - 1) as nat);
        assert(s[0] < 1000);
        assert(s[0] + 1000 * (a + p * q) == (s[0] + 1000 * a) + (1000 * p) * q) by (nonlinear_arith);
        assert(s[0] + 1000 * a < 1000 * p) by (nonlinear_arith)
            requires
                0 <= s[0] < 1000,
                0 <= a < p,
        ;
    }
}

/// Rounding down by `1000^k` keeps the digits from position `k` on.
proof fn lemma_high_part(s: Seq<u64>, k: nat)
    requires
        small_digits(s),
    ensures
        digits_val(s) / power(1000, k) == high_part(s, k as int),
{
    lemma_power_pos(1000, k);
    if k <= s.len() {
        lemma_digits_split(s, k as int);
        let q0 = digits_val(s.skip(k as int));
        let d0 = power(1000, k);
        assert(d0 * q0 == q0 * d0) by (nonlinear_arith);
        lemma_fundamental_div_mod_converse(
            digits_val(s),
            power(1000, k),
            digits_val(s.skip(k as int)),
            digits_val(s.take(k as int)),
        );
        if k == s.len() {
            assert(s.skip(k as int) =~= Seq::<u64>::empty());
        }
    } else {
        lemma_digits_split(s, s.len() as int);
        assert(s.take(s.len() as int) =~= s);
        assert(s.skip(s.len() as int) =~= Seq::<u64>::empty());
        lemma_power1000_monotone(s.len(), k);
        assert(0 * power(1000, k) == 0);
        lemma_fundamental_div_mod_converse(digits_val(s), power(1000, k), 0, digits_val(s));
    }
}

/// Higher digits never outweigh the whole from an earlier position.
proof fn lemma_suffix_monotone(s: Seq<u64>, k: int, j: int)
    requires
        small_digits(s),
        0 <= k <= j <= s.len(),
    ensures
        digits_val(s.skip(j)) <= digits_val(s.skip(k)),
{
    let t = s.skip(k);
    assert(small_digits(t)) by {
        assert forall|i: int| 0 <= i < t.len() implies #[trigger] t[i] < 1000 by {
            assert(t[i] == s[i + k]);
        }
    }
    lemma_digits_split(t, j - k);
    assert(t.skip(j - k) =~= s.skip(j));
    lemma_power_pos(1000, (j - k) as nat);
    lemma_digits_nonneg(s.skip(j));
    let p = power(1000, (j - k) as nat);
    let q = digits_val(s.skip(j));
    assert(q <= p * q) by (nonlinear_arith)
        requires
            p >= 1,
            q >= 0,
    ;
}

/// With a factor of at least one, the backoff never shrinks from one level
/// to the next.
pub proof fn lemma_backoff_exact_step(base: u64, factor_permille: u64, level: nat)
    requires
        factor_permille >= 1000,
    ensures
        0 <= backoff_exact(base, factor_permille, level) <= backoff_exact(base, factor_permille, level + 1),
{
    let p = factor_permille as int;
    let x = base as int * power(p, level);
    let d = power(1000, level);
    lemma_power_nonneg(p, level);
    lemma_power_pos(1000, level);
    assert(x >= 0) by (nonlinear_arith)
        requires
            x == base as int * power(p, level),
            base >= 0,
            power(p, level) >= 0,
    ;
    assert(base as int * power(p, level + 1) == x * p) by (nonlinear_arith)
        requires
            power(p, level + 1) == p * power(p, level),
            x == base as int * power(p, level),
    ;
    assert(power(1000, level + 1) == 1000 * d);
    assert(x * 1000 <= x * p) by (nonlinear_arith)
        requires
            x >= 0,
            p >= 1000,
    ;
    lemma_div_is_ordered(x * 1000, x * p, 1000 * d);
    lemma_div_denominator(x * 1000, 1000, d);
    assert((x * 1000) / 1000 == x) by (nonlinear_arith);
    lemma_div_is_ordered(0, x, d);
}

/// The base-1000 digits of `x`, lowest first.
fn to_digits(x: u64) -> (v: Vec<u64>)
    ensures
        small_digits(v@),
        digits_val(v@) == x,
{
    let mut v: Vec<u64> = Vec::new();
    let mut y = x;
    while y > 0
        invariant
            small_digits(v@),
            digits_val(v@) + power(1000, v@.len()) * y == x,
        decreases y,
    {
        let d = y % 1000;
        proof {
            lemma_digits_push(v@, d);
            let p = power(1000, v@.len());
            assert(power(1000, v@.len() + 1) == 1000 * p);
            assert(d * p + (1000 * p) * (y / 1000) == p * y) by (nonlinear_arith)
                requires
                    y == 1000 * (y / 1000) + d,
            ;
        }
        v.push(d);
        y = y / 1000;
    }
    v
}

/// The digits of `digits_val(v) × p`.
fn mul_digits(v: &Vec<u64>, p: u64) -> (w: Vec<u64>)
    requires
        small_digits(v@),
    ensures
        small_digits(w@),
        digits_val(w@) == digits_val(v@) * p,
{
    let n = v.len();
    let mut w: Vec<u64> = Vec::new();
    let mut c: u128 = 0;
    let mut i: usize = 0;
    while i < n
        invariant
            n == v@.len(),
            small_digits(v@),
            i <= n,
            w@.len() == i,
            small_digits(w@),
            c <= p,
            digits_val(w@) + power(1000, i as nat) * c == digits_val(v@.take(i as int)) * p,
        decreases n - i,
    {
        let d = v[i];
        assert(d < 1000);
        assert((d as int) * (p as int) + (c as int) <= 1000 * (p as int)) by (nonlinear_arith)
            requires
                d < 1000,
                c <= p,
        ;
        let t: u128 = (d as u128) * (p as u128) + c;
        let digit = (t % 1000) as u64;
        let c2 = t / 1000;
        proof {
            let pw = power(1000, i as nat);
            lemma_digits_push(w@, digit);
            lemma_digits_push(v@.take(i as int), d);
            assert(v@.take(i as int).push(d) =~= v@.take(i + 1));
            assert(power(1000, (i + 1) as nat) == 1000 * pw);
            assert(digits_val(w@) + digit * pw + (1000 * pw) * c2 == (digits_val(v@.take(i as int)) + d * pw) * p)
                by (nonlinear_arith)
                requires
                    digits_val(w@) + pw * c == digits_val(v@.take(i as int)) * p,
                    t == 1000 * c2 + digit,
                    t == d * p + c,
            ;
        }
        w.push(digit);
        c = c2;
        i += 1;
    }
    assert(v@.take(n as int) =~= v@);
    while c > 0
        invariant
            small_digits(w@),
            digits_val(w@) + power(1000, w@.len()) * c == digits_val(v@) * p,
        decreases c,
    {
        let digit = (c % 1000) as u64;
        let c2 = c / 1000;
        proof {
            let pw = power(1000, w@.len());
            lemma_digits_push(w@, digit);
            assert(power(1000, w@.len() + 1) == 1000 * pw);
            assert(digit * pw + (1000 * pw) * c2 == pw * c) by (nonlinear_arith)
                requires
                    c == 1000 * c2 + digit,
            ;
        }
        w.push(digit);
        c = c2;
    }
    w
}

/// `high_part(v, k)` capped at `max`.
fn capped_high(v: &Vec<u64>, k: usize, max: u64) -> (r: u64)
    requires
        small_digits(v@),
    ensures
        r == capped(high_part(v@, k as int), max),
{
    let n = v.len();
    proof {
        lemma_digits_nonneg(v@);
    }
    if k >= n || max == 0 {
        proof {
            if k < n {
                lemma_digits_nonneg(v@.skip(k as int));
            }
        }
        return 0;
    }
    let mut j = n;
    let mut h: u128 = 0;
    assert(v@.skip(n as int) =~= Seq::<u64>::empty());
    while j > k
        invariant
            small_digits(v@),
            n == v@.len(),
            k < n,
            k <= j <= n,
            h == digits_val(v@.skip(j as int)),
            h < max,
        decreases j,
    {
        j -= 1;
        let d = v[j];
        assert(v@.skip(j as int).drop_first() =~= v@.skip(j + 1));
        assert(v@.skip(j as int)[0] == d);
        h = (d as u128) + 1000 * h;
        if h >= max as u128 {
            proof {
                lemma_suffix_monotone(v@, k as int, j as int);
            }
            return max;
        }
    }
    h as u64
}

/// `base × (factor_permille / 1000)^level`, rounded down once and capped at `max`.
pub fn scaled_backoff(base: u64, factor_permille: u64, level: u32, max: u64) -> (r: u64)
    ensures
        r == capped(backoff_exact(base, factor_permille, level as nat), max),
{
    let mut v = to_digits(base);
    let mut i: u32 = 0;
    while i < level
        invariant
            i <= level,
            small_digits(v@),
            digits_val(v@) == base as int * power(factor_permille as int, i as nat),
        decreases level - i,
    {
        v = mul_digits(&v, factor_permille);
        proof {
            let q = power(factor_permille as int, i as nat);
            assert(power(factor_permille as int, (i + 1) as nat) == factor_permille * q);
            assert((base as int * q) * factor_permille == base as int * (factor_permille * q)) by (nonlinear_arith);
        }
        i += 1;
    }
    proof {
        lemma_high_part(v@, level as nat);
    }
    capped_high(&v, level as usize, max)
}

} // verus!
