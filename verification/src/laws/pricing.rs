//! What prices, and the limits that derive from them, come to.

use crate::laws::{is_quotient, lesser};
use crate::math::{lemma_div_bounds, lemma_div_unique};
use crate::price::{
    can_price, output_at, sqrt_price_to_price, sqrt_within_deviation, swap_min_out_floor,
    value_in_token1,
};
use vstd::arithmetic::power::{lemma_pow_positive, pow};
use vstd::prelude::*;

verus! {

/// The price of one whole token0 in raw token1 units. `root` is the pool's
/// square-root price with 32 binary places instead of 64, so that its square is
/// the pool's price with 64. Where the pool lists token0 first, the price is that
/// square times the units of a whole token, and where it lists token0 second, it
/// is the units of a whole token divided by it, each rounded down. There is none
/// where the square is nothing or a number does not fit.
pub proof fn law_price_is_of_a_whole_token(
    sqrt_price_x64: u128,
    listed_first: bool,
    token0_decimals: u8,
    token1_decimals: u8,
    root: int,
    r: Option<u64>,
)
    requires
        is_quotient(root, sqrt_price_x64 as int, 0x1_0000_0000),
        call_ensures(
            sqrt_price_to_price,
            (sqrt_price_x64, listed_first, token0_decimals, token1_decimals),
            r,
        ),
    ensures
        ({
            let one = 0x1_0000_0000_0000_0000int;
            let square = root * root;
            let whole = pow(10, token0_decimals as nat);
            match r {
                Some(price) => {
                    &&& 0 < square <= u128::MAX
                    &&& listed_first ==> is_quotient(price as int, square * whole, one)
                    &&& listed_first ==> square * whole <= u128::MAX
                    &&& !listed_first ==> is_quotient(price as int, whole * one, square)
                },
                None => {
                    ||| square == 0
                    ||| square > u128::MAX
                    ||| listed_first && square * whole > u128::MAX
                    ||| !listed_first && u64::MAX * square + square <= whole * one
                },
            }
        }),
{
    let one = 0x1_0000_0000_0000_0000int;
    lemma_div_unique(sqrt_price_x64 as int, 0x1_0000_0000, root);
    let square = root * root;
    let whole = pow(10, token0_decimals as nat);
    lemma_pow_positive(10, token0_decimals as nat);
    assert(square >= 0) by (nonlinear_arith)
        requires
            square == root * root,
    ;
    assert(square * whole >= 0) by (nonlinear_arith)
        requires
            square >= 0,
            whole > 0,
    ;
    lemma_div_bounds(square * whole, one);
    if square > 0 {
        lemma_div_bounds(whole * one, square);
        let q = whole * one / square;
        if q > u64::MAX {
            assert(u64::MAX * square + square <= q * square) by (nonlinear_arith)
                requires
                    q >= u64::MAX + 1,
                    square > 0,
            ;
        }
    }
}

/// A price can be asked for with up to 38 decimals, and with any number where the
/// square-root price gives none.
pub proof fn law_price_can_be_asked_for(
    sqrt_price_x64: u128,
    listed_first: bool,
    token0_decimals: u8,
    token1_decimals: u8,
    r: bool,
)
    requires
        call_ensures(can_price, (sqrt_price_x64, token0_decimals), r),
    ensures
        token0_decimals <= 38 ==> r,
        sqrt_price_x64 < 0x1_0000_0000 ==> r,
        r ==> call_requires(
            sqrt_price_to_price,
            (sqrt_price_x64, listed_first, token0_decimals, token1_decimals),
        ),
{
    if sqrt_price_x64 < 0x1_0000_0000 {
        lemma_div_unique(sqrt_price_x64 as int, 0x1_0000_0000, 0);
        assert(0 * 0 == 0) by (nonlinear_arith);
    }
}

/// At a price, the pool's first token is worth the price in the second, and the
/// second is worth the reciprocal in the first, each rounded down. There is no
/// output where the price is not to be had, where nothing can be divided by it, or
/// where the product does not fit in 128 bits.
pub proof fn law_output_is_at_the_price(
    reference: u128,
    amount_in: u64,
    sells_first: bool,
    root: int,
    r: Option<u128>,
)
    requires
        is_quotient(root, reference as int, 0x1_0000_0000),
        call_ensures(output_at, (reference, amount_in, sells_first), r),
    ensures
        ({
            let one = 0x1_0000_0000_0000_0000int;
            let square = root * root;
            match r {
                Some(out) => {
                    &&& square <= u128::MAX
                    &&& sells_first ==> is_quotient(out as int, amount_in * square, one)
                    &&& sells_first ==> amount_in * square <= u128::MAX
                    &&& !sells_first ==> square > 0 && is_quotient(
                        out as int,
                        amount_in * one,
                        square,
                    )
                },
                None => {
                    ||| square > u128::MAX
                    ||| sells_first && amount_in * square > u128::MAX
                    ||| !sells_first && square == 0
                },
            }
        }),
{
    let one = 0x1_0000_0000_0000_0000int;
    lemma_div_unique(reference as int, 0x1_0000_0000, root);
    let square = root * root;
    assert(square >= 0) by (nonlinear_arith)
        requires
            square == root * root,
    ;
    lemma_div_bounds(amount_in * square, one);
    if square > 0 {
        lemma_div_bounds(amount_in * one, square);
    }
}

/// The floor under a swap's output is 99 hundredths of the output at the
/// reference price, rounded down. There is none where there is no such output or
/// a number does not fit.
pub proof fn law_floor_is_ninety_nine_percent(
    reference: u128,
    amount_in: u64,
    sells_first: bool,
    out: Option<u128>,
    r: Option<u64>,
)
    requires
        call_ensures(swap_min_out_floor, (reference, amount_in, sells_first), r),
        call_ensures(output_at, (reference, amount_in, sells_first), out),
    ensures
        match r {
            Some(floor) => out is Some && is_quotient(floor as int, 99 * out->0, 100),
            None => out is None || 9_900 * out->0 > u128::MAX || 99 * out->0 >= 100 * (u64::MAX
                + 1),
        },
{
}

/// Valued in the pool's second token, an amount of it is itself, and an amount of
/// the first is what selling it yields.
pub proof fn law_value_is_what_selling_yields(
    reference: u128,
    amount: u64,
    out: Option<u128>,
    first: Option<u128>,
    second: Option<u128>,
)
    requires
        call_ensures(output_at, (reference, amount, true), out),
        call_ensures(value_in_token1, (reference, amount, true), first),
        call_ensures(value_in_token1, (reference, amount, false), second),
    ensures
        first == out,
        second == Some(amount as u128),
{
    crate::price::law_value_is_expected_output(reference as int, amount);
}

/// A price is within a band around the reference if and only if it is off by no
/// more than so many ten-thousandths of the reference, on either side. Each side
/// of the comparison stops at 128 bits.
pub proof fn law_band_is_so_many_parts_of_the_reference(
    spot: u128,
    reference: u128,
    bps: u128,
    r: bool,
)
    requires
        call_ensures(sqrt_within_deviation, (spot, reference, bps), r),
    ensures
        ({
            let off = if spot >= reference {
                spot - reference
            } else {
                reference - spot
            };
            r <==> lesser(10_000 * off, u128::MAX as int) <= lesser(
                reference * bps,
                u128::MAX as int,
            )
        }),
{
}

/// The band has two sides of one width: a price as far below the reference as
/// another is above it is treated alike.
pub proof fn law_band_is_symmetric(
    reference: u128,
    off: u128,
    bps: u128,
    above: bool,
    below: bool,
)
    requires
        reference + off <= u128::MAX,
        off <= reference,
        call_ensures(sqrt_within_deviation, ((reference + off) as u128, reference, bps), above),
        call_ensures(sqrt_within_deviation, ((reference - off) as u128, reference, bps), below),
    ensures
        above == below,
{
}

} // verus!
