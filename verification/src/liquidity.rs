//! How much of each pool token a stretch of liquidity holds.

use crate::math::{clamp_u64, lemma_div_bounds, lemma_div_mono, lemma_div_unique};
use crate::tick_math::{get_sqrt_price_at_tick, sqrt_price_at_tick};
use crate::wide::U256;
use vstd::prelude::*;

verus! {

/// Token0 held by `liquidity` between two square-root prices:
/// `L * 2^64 * (hi - lo) / hi / lo`, rounded down at each division.
pub open spec fn amount_0(sqrt_lo: int, sqrt_hi: int, liquidity: int) -> int {
    if sqrt_lo == 0 || sqrt_hi <= sqrt_lo || liquidity == 0 {
        0
    } else {
        (liquidity * (sqrt_hi - sqrt_lo)) * 0x1_0000_0000_0000_0000 / sqrt_hi / sqrt_lo
    }
}

/// Token1 held by `liquidity` between two square-root prices:
/// `L * (hi - lo) / 2^64`, rounded down.
pub open spec fn amount_1(sqrt_lo: int, sqrt_hi: int, liquidity: int) -> int {
    if sqrt_hi <= sqrt_lo || liquidity == 0 {
        0
    } else {
        liquidity * (sqrt_hi - sqrt_lo) / 0x1_0000_0000_0000_0000
    }
}

/// The dividend of `amount_0` fits in 256 bits.
pub open spec fn amount_0_fits(sqrt_lo: int, sqrt_hi: int, liquidity: int) -> bool {
    ||| sqrt_lo == 0
    ||| sqrt_hi <= sqrt_lo
    ||| liquidity == 0
    ||| liquidity * (sqrt_hi - sqrt_lo)
        < 0x1_0000_0000_0000_0000_0000_0000_0000_0000_0000_0000_0000_0000int
}

/// Token0 amount of a liquidity range, capped at `u64::MAX`.
pub fn get_amount_0_delta(sqrt_lo: u128, sqrt_hi: u128, liquidity: u128) -> (r: u64)
    requires
        amount_0_fits(sqrt_lo as int, sqrt_hi as int, liquidity as int),
    ensures
        r == clamp_u64(amount_0(sqrt_lo as int, sqrt_hi as int, liquidity as int)),
{
    if sqrt_lo == 0 || sqrt_hi <= sqrt_lo || liquidity == 0 {
        return 0;
    }
    let diff: u128 = sqrt_hi - sqrt_lo;
    let num: U256 = U256::mul_wide(liquidity, diff).shl64();
    num.div(sqrt_hi).div(sqrt_lo).clamp_to_u64()
}

/// Token1 amount of a liquidity range, capped at `u64::MAX`.
pub fn get_amount_1_delta(sqrt_lo: u128, sqrt_hi: u128, liquidity: u128) -> (r: u64)
    ensures
        r == clamp_u64(amount_1(sqrt_lo as int, sqrt_hi as int, liquidity as int)),
{
    if sqrt_hi <= sqrt_lo || liquidity == 0 {
        return 0;
    }
    let diff: u128 = sqrt_hi - sqrt_lo;
    U256::mul_wide(liquidity, diff).shr64().clamp_to_u64()
}

/// The square-root prices between which a position's liquidity is all token0:
/// from the current price, kept inside the position's range, up to the range's
/// upper end. Below the range the whole range is token0; above it nothing is.
pub open spec fn token0_span(
    sqrt_price_x64: int,
    tick_current: int,
    tick_lower: int,
    tick_upper: int,
) -> (int, int) {
    if tick_current < tick_lower {
        (sqrt_price_at_tick(tick_lower), sqrt_price_at_tick(tick_upper))
    } else if tick_current >= tick_upper {
        (0, 0)
    } else {
        (sqrt_price_x64, sqrt_price_at_tick(tick_upper))
    }
}

/// The square-root prices between which a position's liquidity is all token1.
pub open spec fn token1_span(
    sqrt_price_x64: int,
    tick_current: int,
    tick_lower: int,
    tick_upper: int,
) -> (int, int) {
    if tick_current < tick_lower {
        (0, 0)
    } else if tick_current >= tick_upper {
        (sqrt_price_at_tick(tick_lower), sqrt_price_at_tick(tick_upper))
    } else {
        (sqrt_price_at_tick(tick_lower), sqrt_price_x64)
    }
}

/// The amounts of the vault's token0 and token1 in a position. The vault may
/// name the pool's tokens in the other order.
pub open spec fn position_amounts(
    sqrt_price_x64: int,
    tick_current: int,
    tick_lower: int,
    tick_upper: int,
    liquidity: int,
    token0_is_pool_token0: bool,
) -> (u64, u64) {
    let s0 = token0_span(sqrt_price_x64, tick_current, tick_lower, tick_upper);
    let s1 = token1_span(sqrt_price_x64, tick_current, tick_lower, tick_upper);
    let pool0 = clamp_u64(amount_0(s0.0, s0.1, liquidity));
    let pool1 = clamp_u64(amount_1(s1.0, s1.1, liquidity));
    if token0_is_pool_token0 {
        (pool0, pool1)
    } else {
        (pool1, pool0)
    }
}

/// The token0 side of a position can be computed in 256 bits.
pub open spec fn position_amounts_fit(
    sqrt_price_x64: int,
    tick_current: int,
    tick_lower: int,
    tick_upper: int,
    liquidity: int,
) -> bool {
    let s0 = token0_span(sqrt_price_x64, tick_current, tick_lower, tick_upper);
    amount_0_fits(s0.0, s0.1, liquidity)
}

/// Tests whether the token0 side of a position can be computed in 256 bits.
pub fn can_calculate_position_amounts(
    sqrt_price_x64: u128,
    tick_current: i32,
    tick_lower: i32,
    tick_upper: i32,
    liquidity: u128,
) -> (r: bool)
    ensures
        r == position_amounts_fit(
            sqrt_price_x64 as int,
            tick_current as int,
            tick_lower as int,
            tick_upper as int,
            liquidity as int,
        ),
{
    if tick_current >= tick_upper && tick_current >= tick_lower {
        return true;
    }
    let sqrt_lo: u128 = if tick_current < tick_lower {
        get_sqrt_price_at_tick(tick_lower)
    } else {
        sqrt_price_x64
    };
    let sqrt_hi: u128 = get_sqrt_price_at_tick(tick_upper);
    if sqrt_lo == 0 || sqrt_hi <= sqrt_lo || liquidity == 0 {
        return true;
    }
    U256::mul_wide(liquidity, sqrt_hi - sqrt_lo).hi < 0x1_0000_0000_0000_0000
}

/// The real token0 and token1 amounts held in a position at the current price,
/// in raw units, as `(token0, token1)` of the vault.
pub fn calculate_position_amounts(
    sqrt_price_x64: u128,
    tick_current: i32,
    tick_lower: i32,
    tick_upper: i32,
    liquidity: u128,
    token0_is_pool_token0: bool,
) -> (r: (u64, u64))
    requires
        position_amounts_fit(
            sqrt_price_x64 as int,
            tick_current as int,
            tick_lower as int,
            tick_upper as int,
            liquidity as int,
        ),
    ensures
        r == position_amounts(
            sqrt_price_x64 as int,
            tick_current as int,
            tick_lower as int,
            tick_upper as int,
            liquidity as int,
            token0_is_pool_token0,
        ),
{
    if liquidity == 0 {
        return (0, 0);
    }
    let sqrt_lower: u128 = get_sqrt_price_at_tick(tick_lower);
    let sqrt_upper: u128 = get_sqrt_price_at_tick(tick_upper);
    let (pool0, pool1): (u64, u64) = if tick_current < tick_lower {
        (get_amount_0_delta(sqrt_lower, sqrt_upper, liquidity), 0)
    } else if tick_current >= tick_upper {
        (0, get_amount_1_delta(sqrt_lower, sqrt_upper, liquidity))
    } else {
        (
            get_amount_0_delta(sqrt_price_x64, sqrt_upper, liquidity),
            get_amount_1_delta(sqrt_lower, sqrt_price_x64, liquidity),
        )
    };
    if token0_is_pool_token0 {
        (pool0, pool1)
    } else {
        (pool1, pool0)
    }
}

/// Above the price one, token0 never outnumbers the liquidity that holds it.
pub proof fn law_token0_is_bounded_by_liquidity(sqrt_lo: int, sqrt_hi: int, liquidity: int)
    requires
        0x1_0000_0000_0000_0000 <= sqrt_lo,
        liquidity >= 0,
    ensures
        0 <= amount_0(sqrt_lo, sqrt_hi, liquidity) <= liquidity,
{
    if sqrt_lo < sqrt_hi && liquidity > 0 {
        let q = 0x1_0000_0000_0000_0000int;
        let num = (liquidity * (sqrt_hi - sqrt_lo)) * q;
        let once = num / sqrt_hi;
        assert(0 <= num <= (liquidity * q) * sqrt_hi) by (nonlinear_arith)
            requires
                num == (liquidity * (sqrt_hi - sqrt_lo)) * q,
                0 < q <= sqrt_lo < sqrt_hi,
                liquidity > 0,
        ;
        lemma_div_bounds(num, sqrt_hi);
        lemma_div_mono(num, (liquidity * q) * sqrt_hi, sqrt_hi);
        lemma_div_unique((liquidity * q) * sqrt_hi, sqrt_hi, liquidity * q);
        assert(liquidity * q <= liquidity * sqrt_lo) by (nonlinear_arith)
            requires
                q <= sqrt_lo,
                liquidity > 0,
        ;
        lemma_div_bounds(once, sqrt_lo);
        lemma_div_mono(once, liquidity * sqrt_lo, sqrt_lo);
        lemma_div_unique(liquidity * sqrt_lo, sqrt_lo, liquidity);
    }
}

/// Splitting a range loses at most one unit of token1 to rounding, and gains
/// none.
pub proof fn law_splitting_keeps_token1(lo: int, mid: int, hi: int, liquidity: int)
    requires
        0 <= lo <= mid <= hi,
        liquidity >= 0,
    ensures
        ({
            let parts = amount_1(lo, mid, liquidity) + amount_1(mid, hi, liquidity);
            parts <= amount_1(lo, hi, liquidity) <= parts + 1
        }),
{
    assert(liquidity * (mid - lo) + liquidity * (hi - mid) == liquidity * (hi - lo))
        by (nonlinear_arith);
    assert(liquidity * 0 == 0) by (nonlinear_arith);
}

/// Splitting a range loses at most one unit of token0 to rounding, and gains
/// none.
pub proof fn law_splitting_keeps_token0(lo: int, mid: int, hi: int, liquidity: int)
    requires
        0 < lo <= mid <= hi,
        liquidity >= 0,
    ensures
        ({
            let parts = amount_0(lo, mid, liquidity) + amount_0(mid, hi, liquidity);
            parts <= amount_0(lo, hi, liquidity) <= parts + 1
        }),
{
    if lo < mid && mid < hi && liquidity > 0 {
        let q = 0x1_0000_0000_0000_0000int;
        let a = amount_0(lo, mid, liquidity);
        let b = amount_0(mid, hi, liquidity);
        let c = amount_0(lo, hi, liquidity);
        let x = (liquidity * (mid - lo)) * q;
        let y = (liquidity * (hi - mid)) * q;
        let z = (liquidity * (hi - lo)) * q;
        lemma_nested_floors(x, mid, lo);
        lemma_nested_floors(y, hi, mid);
        lemma_nested_floors(z, hi, lo);
        let d = (lo * mid) * hi;
        assert(d > 0) by (nonlinear_arith)
            requires
                d == (lo * mid) * hi,
                0 < lo,
                0 < mid,
                0 < hi,
        ;
        let w = liquidity * q;
        assert(x == w * (mid - lo) && y == w * (hi - mid) && z == w * (hi - lo))
            by (nonlinear_arith)
            requires
                w == liquidity * q,
                x == (liquidity * (mid - lo)) * q,
                y == (liquidity * (hi - mid)) * q,
                z == (liquidity * (hi - lo)) * q,
        ;
        assert((mid - lo) * hi + (hi - mid) * lo == (hi - lo) * mid) by (nonlinear_arith);
        assert(x * hi + y * lo == z * mid) by (nonlinear_arith)
            requires
                x == w * (mid - lo),
                y == w * (hi - mid),
                z == w * (hi - lo),
                (mid - lo) * hi + (hi - mid) * lo == (hi - lo) * mid,
        ;
        assert(a * d <= x * hi < a * d + d) by (nonlinear_arith)
            requires
                a * (mid * lo) <= x < a * (mid * lo) + mid * lo,
                d == (lo * mid) * hi,
                hi > 0,
        ;
        assert(b * d <= y * lo < b * d + d) by (nonlinear_arith)
            requires
                b * (hi * mid) <= y < b * (hi * mid) + hi * mid,
                d == (lo * mid) * hi,
                lo > 0,
        ;
        assert(c * d <= z * mid < c * d + d) by (nonlinear_arith)
            requires
                c * (hi * lo) <= z < c * (hi * lo) + hi * lo,
                d == (lo * mid) * hi,
                mid > 0,
        ;
        assert(a + b <= c <= a + b + 1) by (nonlinear_arith)
            requires
                a * d + b * d < c * d + d,
                c * d < a * d + b * d + 2 * d,
                d > 0,
        ;
    }
}

/// Rounding down twice brackets the dividend by the product of the divisors.
pub proof fn lemma_nested_floors(n: int, d: int, e: int)
    requires
        d > 0,
        e > 0,
    ensures
        (n / d / e) * (d * e) <= n < (n / d / e) * (d * e) + d * e,
{
    lemma_div_bounds(n, d);
    lemma_div_bounds(n / d, e);
    let once = n / d;
    let twice = n / d / e;
    assert((once + 1) * d <= (twice * e + e) * d) by (nonlinear_arith)
        requires
            once + 1 <= twice * e + e,
            d > 0,
    ;
    assert((twice * e) * d <= once * d) by (nonlinear_arith)
        requires
            twice * e <= once,
            d > 0,
    ;
    assert((twice * e) * d == twice * (d * e)) by (nonlinear_arith);
    assert((twice * e + e) * d == twice * (d * e) + d * e) by (nonlinear_arith);
    assert((once + 1) * d == once * d + d) by (nonlinear_arith);
}

/// Below its range a position is all token0 of the pool, and at or above its
/// upper tick all token1.
pub proof fn law_position_is_one_sided_out_of_range(
    sqrt_price_x64: int,
    tick_current: int,
    tick_lower: int,
    tick_upper: int,
    liquidity: int,
)
    ensures
        tick_current < tick_lower ==> position_amounts(
            sqrt_price_x64,
            tick_current,
            tick_lower,
            tick_upper,
            liquidity,
            true,
        ).1 == 0,
        tick_lower <= tick_upper <= tick_current ==> position_amounts(
            sqrt_price_x64,
            tick_current,
            tick_lower,
            tick_upper,
            liquidity,
            true,
        ).0 == 0,
{
}

/// Naming the tokens the other way round swaps the amounts.
pub proof fn law_amounts_follow_the_order_of_tokens(
    sqrt_price_x64: int,
    tick_current: int,
    tick_lower: int,
    tick_upper: int,
    liquidity: int,
)
    ensures
        ({
            let direct = position_amounts(
                sqrt_price_x64,
                tick_current,
                tick_lower,
                tick_upper,
                liquidity,
                true,
            );
            let swapped = position_amounts(
                sqrt_price_x64,
                tick_current,
                tick_lower,
                tick_upper,
                liquidity,
                false,
            );
            swapped == (direct.1, direct.0)
        }),
{
}

} // verus!
