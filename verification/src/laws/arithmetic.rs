//! What the arithmetic under the formulas comes to.

use crate::laws::{is_quotient, lesser};
use crate::math::{lemma_div_bounds, lemma_mul_u64, mul_div, or_zero, power_of_ten, saturating_mul};
use crate::wide::U256;
use vstd::arithmetic::power::{lemma_pow0, pow};
use vstd::prelude::*;

verus! {

/// Each power of ten is ten times the one before it, and the first is one.
pub proof fn law_powers_of_ten_grow_tenfold(decimals: u8, r: u128, next: u128)
    requires
        decimals < u8::MAX,
        call_ensures(power_of_ten, (decimals,), r),
        call_ensures(power_of_ten, ((decimals + 1) as u8,), next),
    ensures
        next == 10 * r,
        decimals == 0 ==> r == 1,
{
    lemma_pow0(10);
    reveal(pow);
    assert(pow(10, (decimals + 1) as nat) == 10 * pow(10, decimals as nat));
}

/// A product divided is rounded down, and is there unless it takes more than 64
/// bits.
pub proof fn law_product_is_divided_and_rounded_down(a: u64, b: u64, d: u128, r: Option<u64>, z: u64)
    requires
        d > 0,
        call_ensures(mul_div, (a, b, d), r),
        call_ensures(or_zero, (r,), z),
    ensures
        r is Some ==> is_quotient(r->0 as int, a * b, d as int) && z == r->0,
        r is None ==> (u64::MAX + 1) * d <= a * b && z == 0,
{
    lemma_mul_u64(a, b);
    lemma_div_bounds(a * b, d as int);
    let q = a * b / (d as int);
    if q > u64::MAX {
        assert((u64::MAX + 1) * d <= q * d) by (nonlinear_arith)
            requires
                q >= u64::MAX + 1,
                d > 0,
        ;
    }
}

/// A product that does not fit in 128 bits stops at the greatest number that does.
pub proof fn law_product_stops_at_128_bits(a: u128, b: u128, r: u128)
    requires
        call_ensures(saturating_mul, (a, b), r),
    ensures
        r == lesser(a * b, u128::MAX as int),
{
}

/// A number of two halves is the upper times 2^128 and the lower. Products are
/// exact, quotients are rounded down, and what does not fit is left out or stops
/// at 64 bits.
pub proof fn law_wide_numbers_are_exact(
    a: u128,
    b: u128,
    d: u128,
    product: U256,
    quotient: U256,
    fitted: Option<u64>,
    fitted_wide: Option<u128>,
    stopped: u64,
)
    requires
        d > 0,
        call_ensures(U256::mul_wide, (a, b), product),
        call_ensures(U256::div, (product, d), quotient),
        call_ensures(U256::to_u64, (quotient,), fitted),
        call_ensures(U256::to_u128, (quotient,), fitted_wide),
        call_ensures(U256::clamp_to_u64, (quotient,), stopped),
    ensures
        ({
            let two128 = 0x1_0000_0000_0000_0000_0000_0000_0000_0000int;
            let p = product.hi * two128 + product.lo;
            let q = quotient.hi * two128 + quotient.lo;
            &&& p == a * b
            &&& is_quotient(q, p, d as int)
            &&& q <= u64::MAX ==> fitted is Some && fitted->0 == q
            &&& q > u64::MAX ==> fitted is None
            &&& q <= u128::MAX ==> fitted_wide is Some && fitted_wide->0 == q
            &&& q > u128::MAX ==> fitted_wide is None
            &&& stopped == lesser(q, u64::MAX as int)
        }),
{
    lemma_div_bounds(product@, d as int);
}

/// Shifting by 64 bits multiplies or divides by 2^64.
pub proof fn law_wide_numbers_shift(n: U256, up: U256, down: U256)
    requires
        call_ensures(U256::shl64, (n,), up),
        call_ensures(U256::shr64, (n,), down),
    ensures
        ({
            let two128 = 0x1_0000_0000_0000_0000_0000_0000_0000_0000int;
            let two64 = 0x1_0000_0000_0000_0000int;
            let value = n.hi * two128 + n.lo;
            &&& up.hi * two128 + up.lo == value * two64
            &&& is_quotient(down.hi * two128 + down.lo, value, two64)
        }),
{
    lemma_div_bounds(n@, 0x1_0000_0000_0000_0000);
}

} // verus!
