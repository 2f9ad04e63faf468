//! What a position holds.

use crate::laws::is_quotient;
use crate::liquidity::{
    calculate_position_amounts, can_calculate_position_amounts, get_amount_0_delta,
    get_amount_1_delta, lemma_nested_floors,
};
use crate::math::lemma_div_bounds;
use crate::tick_math::get_sqrt_price_at_tick;
use vstd::prelude::*;

verus! {

/// Between two square-root prices, liquidity holds as much token0 as the
/// difference of their reciprocals times the liquidity, rounded down, and no more
/// than 64 bits hold. A range that is empty or starts at nothing holds none.
pub proof fn law_token0_is_liquidity_per_root(sqrt_lo: u128, sqrt_hi: u128, liquidity: u128, r: u64)
    requires
        call_ensures(get_amount_0_delta, (sqrt_lo, sqrt_hi, liquidity), r),
    ensures
        sqrt_lo == 0 || sqrt_hi <= sqrt_lo || liquidity == 0 ==> r == 0,
        0 < sqrt_lo < sqrt_hi ==> {
            let n = (liquidity * (sqrt_hi - sqrt_lo)) * 0x1_0000_0000_0000_0000;
            let d = sqrt_hi * sqrt_lo;
            is_quotient(r as int, n, d) || (r == u64::MAX && r * d <= n)
        },
{
    if 0 < sqrt_lo < sqrt_hi {
        let l = liquidity as int;
        let lo = sqrt_lo as int;
        let hi = sqrt_hi as int;
        let n = (l * (hi - lo)) * 0x1_0000_0000_0000_0000;
        let d = hi * lo;
        assert(d > 0) by (nonlinear_arith)
            requires
                d == hi * lo,
                hi > 0,
                lo > 0,
        ;
        if l == 0 {
            assert(n == 0) by (nonlinear_arith)
                requires
                    l == 0,
                    n == (l * (hi - lo)) * 0x1_0000_0000_0000_0000,
            ;
            assert(0 * d == 0) by (nonlinear_arith);
        } else {
            lemma_nested_floors(n, hi, lo);
            let q = n / hi / lo;
            assert(n >= 0) by (nonlinear_arith)
                requires
                    l >= 0,
                    hi > lo,
                    n == (l * (hi - lo)) * 0x1_0000_0000_0000_0000,
            ;
            lemma_div_bounds(n, hi);
            lemma_div_bounds(n / hi, lo);
            if q > u64::MAX {
                assert(u64::MAX * d <= q * d) by (nonlinear_arith)
                    requires
                        q > u64::MAX,
                        d > 0,
                ;
            }
        }
    }
}

/// Between two square-root prices, liquidity holds as much token1 as their
/// difference times the liquidity, rounded down, and no more than 64 bits hold. An
/// empty range holds none.
pub proof fn law_token1_is_liquidity_times_root(
    sqrt_lo: u128,
    sqrt_hi: u128,
    liquidity: u128,
    r: u64,
)
    requires
        call_ensures(get_amount_1_delta, (sqrt_lo, sqrt_hi, liquidity), r),
    ensures
        sqrt_hi <= sqrt_lo ==> r == 0,
        sqrt_lo < sqrt_hi ==> {
            let n = liquidity * (sqrt_hi - sqrt_lo);
            let one = 0x1_0000_0000_0000_0000int;
            is_quotient(r as int, n, one) || (r == u64::MAX && r * one <= n)
        },
{
    let n = liquidity * (sqrt_hi - sqrt_lo);
    if sqrt_lo < sqrt_hi {
        assert(n >= 0) by (nonlinear_arith)
            requires
                n == liquidity * (sqrt_hi - sqrt_lo),
                sqrt_lo < sqrt_hi,
                liquidity >= 0,
        ;
        assert(liquidity == 0 ==> n == 0) by (nonlinear_arith)
            requires
                n == liquidity * (sqrt_hi - sqrt_lo),
        ;
        lemma_div_bounds(n, 0x1_0000_0000_0000_0000);
    }
}

/// A position holds the pool's first token from the current price up to its upper
/// tick, and the second from its lower tick up to the current price. So below its
/// range it holds the first token of the whole range and none of the second, and
/// at or above its upper tick it is the other way round. The vault's token0 comes
/// first, whichever of the pool's tokens it is.
pub proof fn law_position_is_split_at_the_price(
    sqrt_price_x64: u128,
    tick_current: i32,
    tick_lower: i32,
    tick_upper: i32,
    liquidity: u128,
    sqrt_lower: u128,
    sqrt_upper: u128,
    first: u64,
    second: u64,
    direct: (u64, u64),
    crossed: (u64, u64),
)
    requires
        call_ensures(get_sqrt_price_at_tick, (tick_lower,), sqrt_lower),
        call_ensures(get_sqrt_price_at_tick, (tick_upper,), sqrt_upper),
        call_ensures(
            get_amount_0_delta,
            (
                if tick_current < tick_lower {
                    sqrt_lower
                } else {
                    sqrt_price_x64
                },
                sqrt_upper,
                liquidity,
            ),
            first,
        ),
        call_ensures(
            get_amount_1_delta,
            (
                sqrt_lower,
                if tick_upper <= tick_current {
                    sqrt_upper
                } else {
                    sqrt_price_x64
                },
                liquidity,
            ),
            second,
        ),
        call_ensures(
            calculate_position_amounts,
            (sqrt_price_x64, tick_current, tick_lower, tick_upper, liquidity, true),
            direct,
        ),
        call_ensures(
            calculate_position_amounts,
            (sqrt_price_x64, tick_current, tick_lower, tick_upper, liquidity, false),
            crossed,
        ),
    ensures
        tick_current < tick_lower ==> direct == (first, 0u64),
        tick_lower <= tick_current < tick_upper ==> direct == (first, second),
        tick_lower <= tick_current && tick_upper <= tick_current ==> direct == (0u64, second),
        crossed == (direct.1, direct.0),
{
}

/// The amounts can be worked out for every position of up to 64 bits of liquidity,
/// for every position above its range, and, of larger ones, where the liquidity
/// times the width of the part that is token0 stays below 2^192. Where they can,
/// they may be asked for.
pub proof fn law_amounts_can_be_worked_out(
    sqrt_price_x64: u128,
    tick_current: i32,
    tick_lower: i32,
    tick_upper: i32,
    liquidity: u128,
    listed_first: bool,
    sqrt_lower: u128,
    sqrt_upper: u128,
    r: bool,
)
    requires
        call_ensures(get_sqrt_price_at_tick, (tick_lower,), sqrt_lower),
        call_ensures(get_sqrt_price_at_tick, (tick_upper,), sqrt_upper),
        call_ensures(
            can_calculate_position_amounts,
            (sqrt_price_x64, tick_current, tick_lower, tick_upper, liquidity),
            r,
        ),
    ensures
        ({
            let from = if tick_current < tick_lower {
                sqrt_lower
            } else {
                sqrt_price_x64
            };
            let above = tick_lower <= tick_current && tick_upper <= tick_current;
            &&& liquidity <= u64::MAX ==> r
            &&& above ==> r
            &&& !above && 0 < from < sqrt_upper ==> (r <==> liquidity * (sqrt_upper - from)
                < 0x1_0000_0000_0000_0000_0000_0000_0000_0000_0000_0000_0000_0000int)
            &&& r ==> call_requires(
                calculate_position_amounts,
                (sqrt_price_x64, tick_current, tick_lower, tick_upper, liquidity, listed_first),
            )
        }),
{
    let from = if tick_current < tick_lower {
        sqrt_lower
    } else {
        sqrt_price_x64
    };
    if liquidity <= u64::MAX && from < sqrt_upper {
        assert(liquidity * (sqrt_upper - from)
            < 0x1_0000_0000_0000_0000_0000_0000_0000_0000_0000_0000_0000_0000int)
            by (nonlinear_arith)
            requires
                liquidity <= u64::MAX,
                from < sqrt_upper,
        ;
    }
    assert(liquidity == 0 ==> liquidity * (sqrt_upper - from) == 0) by (nonlinear_arith);
}

} // verus!
