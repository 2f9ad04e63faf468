//! Integer arithmetic shared by the price, liquidity and share formulas.

use vstd::arithmetic::div_mod::{
    lemma_div_is_ordered, lemma_fundamental_div_mod, lemma_fundamental_div_mod_converse,
    lemma_mod_bound,
};
use vstd::arithmetic::power::{lemma_pow0, lemma_pow_increases, lemma_pow_positive, pow};
use vstd::prelude::*;

verus! {

/// Ten to the power `decimals`: how many raw units make one whole token.
pub open spec fn pow10(decimals: int) -> int {
    pow(10, decimals as nat)
}

/// `n`, or `u64::MAX` if `n` is larger.
pub open spec fn clamp_u64(n: int) -> u64 {
    if n > u64::MAX {
        u64::MAX
    } else {
        n as u64
    }
}

/// `a - b`, or zero if `b` is larger.
pub open spec fn monus(a: int, b: int) -> int {
    if a >= b {
        a - b
    } else {
        0
    }
}

/// `n` where it fits in a `u64`.
pub open spec fn fit_u64(n: int) -> Option<u64> {
    if 0 <= n <= u64::MAX {
        Some(n as u64)
    } else {
        None
    }
}

/// `n` where it fits in a `u64`, and zero where it does not.
pub open spec fn fit_u64_or_zero(n: int) -> u64 {
    if 0 <= n <= u64::MAX {
        n as u64
    } else {
        0
    }
}

/// Division that rounds toward zero.
pub open spec fn trunc_div(n: int, d: int) -> int
    recommends
        d > 0,
{
    if n >= 0 {
        n / d
    } else {
        -((-n) / d)
    }
}

/// Ten to the power `n` is below 2^128 up to `n` = 38.
pub proof fn lemma_pow10_bound(n: nat)
    requires
        n <= 38,
    ensures
        1 <= pow10(n as int) <= 100_000_000_000_000_000_000_000_000_000_000_000_000,
{
    lemma_pow_positive(10, n);
    lemma_pow_increases(10, n, 38);
    lemma_pow10_values();
}

/// The powers of ten at which the formulas change behaviour.
pub proof fn lemma_pow10_values()
    ensures
        pow(10, 0) == 1,
        pow(10, 19) == 10_000_000_000_000_000_000,
        pow(10, 38) == 100_000_000_000_000_000_000_000_000_000_000_000_000,
{
    lemma_pow0(10);
    reveal(pow);
    assert(pow(10, 19) == 10_000_000_000_000_000_000) by {
        reveal_with_fuel(pow, 20);
    }
    assert(pow(10, 38) == pow(10, 19) * pow(10, 19)) by {
        vstd::arithmetic::power::lemma_pow_adds(10, 19, 19);
    }
}

/// Ten to the power `decimals`.
pub fn power_of_ten(decimals: u8) -> (r: u128)
    requires
        decimals <= 38,
    ensures
        r == pow10(decimals as int),
        r >= 1,
{
    let mut r: u128 = 1;
    let mut i: u8 = 0;
    proof {
        lemma_pow0(10);
    }
    while i < decimals
        invariant
            i <= decimals <= 38,
            r == pow10(i as int),
        decreases decimals - i,
    {
        proof {
            lemma_pow10_bound((i + 1) as nat);
            reveal(pow);
            assert(pow(10, (i + 1) as nat) == 10 * pow(10, i as nat));
        }
        r = r * 10;
        i = i + 1;
    }
    proof {
        lemma_pow_positive(10, decimals as nat);
    }
    r
}

/// The product of two `u64` numbers fits in a `u128`.
pub proof fn lemma_mul_u64(a: u64, b: u64)
    ensures
        0 <= a * b <= 0xffff_ffff_ffff_fffe_0000_0000_0000_0001,
{
    assert(0 <= a * b <= 0xffff_ffff_ffff_fffe_0000_0000_0000_0001) by (nonlinear_arith)
        requires
            0 <= a <= 0xffff_ffff_ffff_ffff,
            0 <= b <= 0xffff_ffff_ffff_ffff,
    ;
}

/// `floor(a * b / d)` where it fits in a `u64`.
pub fn mul_div(a: u64, b: u64, d: u128) -> (r: Option<u64>)
    requires
        d > 0,
    ensures
        r == fit_u64((a * b) / (d as int)),
{
    proof {
        lemma_mul_u64(a, b);
    }
    let q: u128 = (a as u128) * (b as u128) / d;
    if q > u64::MAX as u128 {
        None
    } else {
        Some(q as u64)
    }
}

/// `n` if it fits in a `u64`, else zero.
pub fn or_zero(n: Option<u64>) -> (r: u64)
    ensures
        r == (match n {
            Some(v) => v,
            None => 0,
        }),
{
    match n {
        Some(v) => v,
        None => 0,
    }
}

/// `a * b`, or `u128::MAX` if that is larger.
pub fn saturating_mul(a: u128, b: u128) -> (r: u128)
    ensures
        r == if a * b > u128::MAX {
            u128::MAX as int
        } else {
            a * b
        },
{
    match a.checked_mul(b) {
        Some(v) => v,
        None => u128::MAX,
    }
}

/// A floor quotient is monotone in its dividend.
pub proof fn lemma_div_mono(a: int, b: int, d: int)
    requires
        a <= b,
        d > 0,
    ensures
        a / d <= b / d,
{
    lemma_div_is_ordered(a, b, d);
}

/// A floor quotient times its divisor misses the dividend by less than the
/// divisor.
pub proof fn lemma_div_bounds(a: int, d: int)
    requires
        d > 0,
    ensures
        (a / d) * d <= a < (a / d) * d + d,
        a >= 0 ==> a / d >= 0,
{
    lemma_fundamental_div_mod(a, d);
    lemma_mod_bound(a, d);
    assert((a / d) * d == d * (a / d)) by (nonlinear_arith);
    if a >= 0 {
        vstd::arithmetic::div_mod::lemma_div_pos_is_pos(a, d);
    }
}

/// A number between `q * d` and `q * d + d` has the floor quotient `q`.
pub proof fn lemma_div_unique(a: int, d: int, q: int)
    requires
        d > 0,
        q * d <= a < q * d + d,
    ensures
        a / d == q,
{
    lemma_fundamental_div_mod_converse(a, d, q, a - q * d);
}

/// Quotients rounded toward zero are no further apart than their dividends, but
/// for one step of rounding.
pub proof fn lemma_trunc_div_step(a: int, b: int, d: int)
    requires
        d > 0,
        trunc_div(a, d) >= trunc_div(b, d),
    ensures
        (trunc_div(a, d) - trunc_div(b, d) - 1) * d <= a - b || trunc_div(a, d) == trunc_div(b, d),
{
    let qa = trunc_div(a, d);
    let qb = trunc_div(b, d);
    lemma_div_bounds(a, d);
    lemma_div_bounds(-a, d);
    lemma_div_bounds(b, d);
    lemma_div_bounds(-b, d);
    assert(a >= 0 ==> qa * d <= a && qa >= 0);
    assert(a < 0 ==> qa * d < a + d) by (nonlinear_arith)
        requires
            a < 0 ==> qa == -((-a) / d) && -a < ((-a) / d) * d + d,
    ;
    assert(b < 0 ==> b <= qb * d && qb <= 0) by (nonlinear_arith)
        requires
            b < 0 ==> qb == -((-b) / d) && ((-b) / d) * d <= -b && (-b) / d >= 0,
    ;
    assert(b >= 0 ==> b < qb * d + d);
    if a >= 0 {
        assert((qa - qb - 1) * d <= a - b) by (nonlinear_arith)
            requires
                qa * d <= a,
                b < qb * d + d || b <= qb * d,
                d > 0,
        ;
    } else if b < 0 {
        assert((qa - qb - 1) * d <= a - b) by (nonlinear_arith)
            requires
                qa * d < a + d,
                b <= qb * d,
        ;
    } else {
        assert(qa <= 0) by (nonlinear_arith)
            requires
                qa * d < a + d,
                a < 0,
                d > 0,
        ;
        assert(qb >= 0);
    }
}

} // verus!
