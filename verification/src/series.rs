//! SeriesEvaluator: a truncated alternating series approximating a
//! Bessel-like special function. The series order is a nonnegative integer,
//! so every power is an integer power and the gamma factor of each term is a
//! factorial; both are computed here and proved, not taken on trust. Terms
//! follow the multiplicative recurrence
//! `term[m+1] = -term[m] * (x/2)^2 / ((m+1) * (m+1+order))`,
//! which sums the same terms as the direct formula; each fixed-point step
//! truncates toward zero and saturates.
use vstd::prelude::*;

use crate::fx::{fx_add, fx_div_int, fx_mul, fx_mul_spec, fx_neg, fx_sat, tdiv, FX_ONE};

verus! {

/// The factorial of `n`.
pub open spec fn fact(n: nat) -> nat
    decreases n,
{
    if n == 0 {
        1
    } else {
        n * fact((n - 1) as nat)
    }
}

/// Factorials are positive.
pub proof fn lemma_fact_pos(n: nat)
    ensures
        fact(n) >= 1,
    decreases n,
{
    if n > 0 {
        lemma_fact_pos((n - 1) as nat);
        assert(n * fact((n - 1) as nat) >= 1 * fact((n - 1) as nat)) by (nonlinear_arith)
            requires
                n >= 1,
                fact((n - 1) as nat) >= 1,
        ;
    }
}

/// Factorials grow with their argument.
pub proof fn lemma_fact_monotone(m: nat, n: nat)
    requires
        m <= n,
    ensures
        fact(m) <= fact(n),
    decreases n - m,
{
    if m < n {
        lemma_fact_monotone(m, (n - 1) as nat);
        lemma_fact_pos((n - 1) as nat);
        assert(fact((n - 1) as nat) <= n * fact((n - 1) as nat)) by (nonlinear_arith)
            requires
                n >= 1,
                fact((n - 1) as nat) >= 0,
        ;
    }
}

/// The largest factorial the evaluator needs fits a signed machine word.
pub proof fn lemma_fact_20_fits()
    ensures
        fact(20) < 0x8000_0000_0000_0000,
{
    reveal_with_fuel(fact, 21);
    assert(fact(20) == 2432902008176640000);
}

/// The factorial of a small order, as a machine integer.
pub fn fact_exec(n: u32) -> (r: u64)
    requires
        n <= 20,
    ensures
        r as nat == fact(n as nat),
        1 <= r < 0x8000_0000_0000_0000,
{
    proof {
        lemma_fact_20_fits();
        lemma_fact_pos(n as nat);
        lemma_fact_monotone(n as nat, 20);
    }
    let mut r: u64 = 1;
    let mut i: u32 = 0;
    while i < n
        invariant
            i <= n <= 20,
            r as nat == fact(i as nat),
        decreases n - i,
    {
        proof {
            lemma_fact_20_fits();
            lemma_fact_monotone((i + 1) as nat, 20);
            assert((r as nat) * ((i + 1) as nat) == ((i + 1) as nat) * fact(i as nat))
                by (nonlinear_arith)
                requires
                    r as nat == fact(i as nat),
            ;
        }
        r = r * ((i + 1) as u64);
        i = i + 1;
    }
    r
}

/// The `e`-th fixed-point power of `b`, folded with saturating multiplication
/// (the zeroth power is one, also at base zero).
pub open spec fn fx_ipow(b: int, e: nat) -> int
    decreases e,
{
    if e == 0 {
        FX_ONE as int
    } else {
        fx_mul_spec(fx_ipow(b, (e - 1) as nat), b)
    }
}

/// Compute an integer fixed-point power.
pub fn fx_ipow_exec(b: i64, e: u32) -> (r: i64)
    ensures
        r as int == fx_ipow(b as int, e as nat),
{
    let mut acc: i64 = FX_ONE;
    let mut i: u32 = 0;
    while i < e
        invariant
            i <= e,
            acc as int == fx_ipow(b as int, i as nat),
        decreases e - i,
    {
        acc = fx_mul(acc, b);
        i = i + 1;
    }
    acc
}

/// The `m`-th series term at half-argument `hx` and order `a`. A term whose
/// divisor no longer fits a machine word is zero: its true value is below
/// fixed-point resolution.
pub open spec fn series_term(hx: int, a: nat, m: nat) -> int
    decreases m,
{
    if m == 0 {
        tdiv(fx_ipow(hx, a), fact(a) as int)
    } else {
        let d = (m * (m + a)) as int;
        if d > i64::MAX as int {
            0
        } else {
            fx_sat(-tdiv(fx_mul_spec(series_term(hx, a, (m - 1) as nat), fx_mul_spec(hx, hx)), d))
        }
    }
}

/// The saturating sum of the first `k` series terms.
pub open spec fn series_sum(hx: int, a: nat, k: nat) -> int
    decreases k,
{
    if k == 0 {
        0
    } else {
        fx_sat(series_sum(hx, a, (k - 1) as nat) + series_term(hx, a, (k - 1) as nat))
    }
}

/// What `evaluate` returns: the truncated series at half the argument.
pub open spec fn series_value(x: int, a: nat, m_terms: nat) -> int {
    series_sum(tdiv(x, 2), a, m_terms)
}

/// Evaluate the truncated series at argument `x` (fixed-point), order `a` and
/// truncation bound `m_terms`. Pure: the result is a function of the three
/// arguments alone. The order is bounded so that its factorial fits a
/// machine word.
pub fn evaluate(x: i64, a: u32, m_terms: u32) -> (r: i64)
    requires
        a <= 20,
    ensures
        r as int == series_value(x as int, a as nat, m_terms as nat),
{
    let hx: i64 = fx_div_int(x, 2);
    let xx: i64 = fx_mul(hx, hx);
    let f: u64 = fact_exec(a);
    let mut term: i64 = fx_div_int(fx_ipow_exec(hx, a), f);
    let mut sum: i64 = 0;
    let mut i: u32 = 0;
    while i < m_terms
        invariant
            a <= 20,
            i <= m_terms,
            hx as int == tdiv(x as int, 2),
            xx as int == fx_mul_spec(hx as int, hx as int),
            term as int == series_term(hx as int, a as nat, i as nat),
            sum as int == series_sum(hx as int, a as nat, i as nat),
        decreases m_terms - i,
    {
        sum = fx_add(sum, term);
        let m_next: u64 = (i as u64) + 1;
        proof {
            assert((m_next as int) * ((m_next as int) + (a as int)) >= 1) by (nonlinear_arith)
                requires
                    m_next as int >= 1,
                    a as int >= 0,
            ;
            assert((m_next as int) * ((m_next as int) + (a as int)) < 0x2_0000_0000_0000_0000)
                by (nonlinear_arith)
                requires
                    1 <= m_next as int <= 0x1_0000_0000,
                    0 <= a as int <= 20,
            ;
        }
        let d: u128 = (m_next as u128) * ((m_next as u128) + (a as u128));
        if d > i64::MAX as u128 {
            term = 0;
        } else {
            term = fx_neg(fx_div_int(fx_mul(term, xx), d as u64));
        }
        i = i + 1;
    }
    sum
}

/// Raising zero to a positive power gives zero.
pub proof fn lemma_ipow_zero(e: nat)
    requires
        e >= 1,
    ensures
        fx_ipow(0, e) == 0,
    decreases e,
{
    if e > 1 {
        lemma_ipow_zero((e - 1) as nat);
    }
}

/// At argument zero the series collapses: only the zeroth term of the
/// zeroth-order series is nonzero, and it is exactly one. So the value is
/// one for order zero (once at least one term is summed) and zero for every
/// positive order.
pub proof fn lemma_series_at_zero(a: nat, k: nat)
    ensures
        series_value(0, a, k) == if a == 0 && k >= 1 {
            FX_ONE as int
        } else {
            0
        },
    decreases k,
{
    lemma_fact_pos(a);
    if a >= 1 {
        lemma_ipow_zero(a);
    }
    if k >= 1 {
        lemma_series_at_zero(a, (k - 1) as nat);
        lemma_series_zero_terms(a, (k - 1) as nat);
    }
}

/// Every series term at argument zero is zero, except the zeroth term at
/// order zero, which is one.
pub proof fn lemma_series_zero_terms(a: nat, m: nat)
    ensures
        series_term(0, a, m) == if m == 0 && a == 0 {
            FX_ONE as int
        } else {
            0
        },
    decreases m,
{
    lemma_fact_pos(a);
    if m == 0 {
        if a >= 1 {
            lemma_ipow_zero(a);
        }
    } else {
        lemma_series_zero_terms(a, (m - 1) as nat);
        let d = (m * (m + a)) as int;
        assert(d >= 1) by (nonlinear_arith)
            requires
                d == (m * (m + a)) as int,
                m >= 1,
        ;
        if d <= i64::MAX as int {
            let prev = series_term(0, a, (m - 1) as nat);
            assert(fx_mul_spec(0, 0) == 0);
            assert(prev * 0 == 0) by (nonlinear_arith);
            assert(fx_mul_spec(prev, 0) == 0);
            assert(tdiv(0, d) == 0) by (nonlinear_arith)
                requires
                    d >= 1,
            ;
        }
    }
}

} // verus!
