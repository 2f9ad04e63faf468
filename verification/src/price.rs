//! Prices read from a pool account and the limits that derive from them.

use crate::bytes::{field, le_nat, read_i32, read_le, signed};
use crate::constants::MAX_SWAP_SLIPPAGE_BPS;
use crate::math::{fit_u64, lemma_div_bounds, pow10, power_of_ten, saturating_mul};
use crate::pubkey::Pubkey;
use crate::wide::U256;
use vstd::arithmetic::power::lemma_pow_positive;
use vstd::prelude::*;

verus! {

/// Where a pool account keeps its first mint.
pub const POOL_TOKEN_MINT_0_OFFSET: usize = 73;

/// Where a pool account keeps its square-root price.
pub const POOL_SQRT_PRICE_OFFSET: usize = 253;

/// Where a pool account keeps its current tick.
pub const POOL_TICK_CURRENT_OFFSET: usize = 269;

/// The pool's first mint, if `data` is long enough to hold it.
pub fn read_pool_token_mint_0(data: &[u8]) -> (r: Option<Pubkey>)
    ensures
        r is Some <==> data@.len() >= 105,
        r matches Some(key) ==> key@ == data@.subrange(73, 105),
{
    if data.len() < POOL_TOKEN_MINT_0_OFFSET + 32 {
        return None;
    }
    Some(Pubkey::read(data, POOL_TOKEN_MINT_0_OFFSET))
}

/// The pool's square-root price in Q64.64, if `data` is long enough to hold it.
pub fn read_pool_sqrt_price_x64(data: &[u8]) -> (r: Option<u128>)
    ensures
        r is Some <==> data@.len() >= 269,
        r matches Some(n) ==> n == le_nat(field(data@, 253, 16)),
{
    if data.len() < POOL_SQRT_PRICE_OFFSET + 16 {
        return None;
    }
    Some(read_le(data, POOL_SQRT_PRICE_OFFSET, 16))
}

/// The pool's current tick, if `data` is long enough to hold it.
pub fn read_pool_tick_current(data: &[u8]) -> (r: Option<i32>)
    ensures
        r is Some <==> data@.len() >= 273,
        r matches Some(n) ==> n == signed(le_nat(field(data@, 269, 4)), 0x1_0000_0000),
{
    if data.len() < POOL_TICK_CURRENT_OFFSET + 4 {
        return None;
    }
    Some(read_i32(data, POOL_TICK_CURRENT_OFFSET))
}

/// The pool price (raw token1 per raw token0) in Q64.64: the square of the
/// square-root price, of which the lowest 32 bits are dropped first.
pub open spec fn price_x64(sqrt_price_x64: int) -> int {
    let half = sqrt_price_x64 / 0x1_0000_0000;
    half * half
}

/// The price, where it fits in 128 bits.
fn square_half(sqrt_price_x64: u128) -> (r: Option<u128>)
    ensures
        r == (if price_x64(sqrt_price_x64 as int) <= u128::MAX {
            Some(price_x64(sqrt_price_x64 as int) as u128)
        } else {
            None
        }),
{
    let half: u128 = sqrt_price_x64 / 0x1_0000_0000;
    half.checked_mul(half)
}

/// The price of one whole token0 in raw token1 units. Where the pool lists the
/// two tokens the other way round, the reciprocal of its price is taken.
pub open spec fn token0_price(
    sqrt_price_x64: int,
    token0_is_pool_token0: bool,
    token0_decimals: int,
) -> Option<u64> {
    let p = price_x64(sqrt_price_x64);
    let scale = pow10(token0_decimals);
    if p == 0 || p > u128::MAX {
        None
    } else if token0_is_pool_token0 {
        if p * scale > u128::MAX {
            None
        } else {
            fit_u64(p * scale / 0x1_0000_0000_0000_0000)
        }
    } else {
        fit_u64(scale * 0x1_0000_0000_0000_0000 / p)
    }
}

/// The scale of `token0_decimals` decimals fits in 128 bits, or is not needed: a
/// square-root price too small or too large gives no price at any scale.
pub open spec fn price_scale_fits(sqrt_price_x64: int, token0_decimals: int) -> bool {
    ||| token0_decimals <= 38
    ||| price_x64(sqrt_price_x64) == 0
    ||| price_x64(sqrt_price_x64) > u128::MAX
}

/// Tells whether `sqrt_price_to_price` may be called: whether the scale fits or
/// is not needed.
pub fn can_price(sqrt_price_x64: u128, token0_decimals: u8) -> (r: bool)
    ensures
        r == price_scale_fits(sqrt_price_x64 as int, token0_decimals as int),
{
    match square_half(sqrt_price_x64) {
        Some(p) => token0_decimals <= 38 || p == 0,
        None => true,
    }
}

/// Converts a pool's square-root price to the price of one token0 in token1
/// units. `token0_is_pool_token0` tells whether the vault names the pool's
/// tokens in the pool's order.
pub fn sqrt_price_to_price(
    sqrt_price_x64: u128,
    token0_is_pool_token0: bool,
    token0_decimals: u8,
    _token1_decimals: u8,
) -> (r: Option<u64>)
    requires
        price_scale_fits(sqrt_price_x64 as int, token0_decimals as int),
    ensures
        r == token0_price(sqrt_price_x64 as int, token0_is_pool_token0, token0_decimals as int),
{
    let half: u128 = sqrt_price_x64 / 0x1_0000_0000;
    if half == 0 {
        assert(0 * 0 == 0) by (nonlinear_arith);
        return None;
    }
    proof {
        let h = half as int;
        assert(h * h >= 1) by (nonlinear_arith)
            requires
                h >= 1,
        ;
    }
    let p: u128 = match square_half(sqrt_price_x64) {
        Some(p) => p,
        None => return None,
    };
    let scale: u128 = power_of_ten(token0_decimals);
    if token0_is_pool_token0 {
        match p.checked_mul(scale) {
            Some(raw) => U256 { hi: 0, lo: raw / 0x1_0000_0000_0000_0000 }.to_u64(),
            None => None,
        }
    } else {
        U256::mul_wide(scale, 0x1_0000_0000_0000_0000).div(p).to_u64()
    }
}

/// What a swap of `amount_in` yields at the reference price, before slippage:
/// `amount_in * P` of token1 for token0, `amount_in / P` of token0 for token1.
pub open spec fn expected_output(
    ref_sqrt_x64: int,
    amount_in: int,
    input_is_pool_token0: bool,
) -> Option<int> {
    let p = price_x64(ref_sqrt_x64);
    if p > u128::MAX {
        None
    } else if input_is_pool_token0 {
        if amount_in * p > u128::MAX {
            None
        } else {
            Some(amount_in * p / 0x1_0000_0000_0000_0000)
        }
    } else if p == 0 {
        None
    } else {
        Some(amount_in * 0x1_0000_0000_0000_0000 / p)
    }
}

/// What a swap of `amount_in` yields at the reference price, before slippage.
pub fn output_at(ref_sqrt_x64: u128, amount_in: u64, input_is_pool_token0: bool) -> (r: Option<u128>)
    ensures
        r == (match expected_output(ref_sqrt_x64 as int, amount_in as int, input_is_pool_token0) {
            Some(expected) => Some(expected as u128),
            None => None,
        }),
        r matches Some(out) ==> expected_output(
            ref_sqrt_x64 as int,
            amount_in as int,
            input_is_pool_token0,
        ) == Some(out as int),
{
    let p: u128 = match square_half(ref_sqrt_x64) {
        Some(p) => p,
        None => return None,
    };
    if input_is_pool_token0 {
        match (amount_in as u128).checked_mul(p) {
            Some(raw) => Some(raw / 0x1_0000_0000_0000_0000),
            None => None,
        }
    } else if p == 0 {
        None
    } else {
        Some((amount_in as u128) * 0x1_0000_0000_0000_0000 / p)
    }
}

/// The least output that a swap may ask for: what the reference price yields,
/// less the greatest slippage allowed.
pub open spec fn min_out_floor(
    ref_sqrt_x64: int,
    amount_in: int,
    input_is_pool_token0: bool,
) -> Option<u64> {
    match expected_output(ref_sqrt_x64, amount_in, input_is_pool_token0) {
        Some(expected) => if expected * (10_000 - MAX_SWAP_SLIPPAGE_BPS) > u128::MAX {
            None
        } else {
            fit_u64(expected * (10_000 - MAX_SWAP_SLIPPAGE_BPS) / 10_000)
        },
        None => None,
    }
}

/// The least acceptable output of a swap, from the reference square-root price.
pub fn swap_min_out_floor(ref_sqrt_x64: u128, amount_in: u64, input_is_pool_token0: bool) -> (r:
    Option<u64>)
    ensures
        r == min_out_floor(ref_sqrt_x64 as int, amount_in as int, input_is_pool_token0),
{
    let expected: u128 = match output_at(ref_sqrt_x64, amount_in, input_is_pool_token0) {
        Some(expected) => expected,
        None => return None,
    };
    let scaled: u128 = match expected.checked_mul(10_000 - MAX_SWAP_SLIPPAGE_BPS) {
        Some(scaled) => scaled,
        None => return None,
    };
    let floor: u128 = scaled / 10_000;
    if floor > u64::MAX as u128 {
        None
    } else {
        Some(floor as u64)
    }
}

/// An amount of a pool token in raw token1 units of the pool, at the reference
/// price.
pub open spec fn token1_value(
    ref_sqrt_x64: int,
    amount: int,
    amount_is_pool_token0: bool,
) -> Option<u128> {
    let p = price_x64(ref_sqrt_x64);
    if !amount_is_pool_token0 {
        Some(amount as u128)
    } else if p > u128::MAX || amount * p > u128::MAX {
        None
    } else {
        Some((amount * p / 0x1_0000_0000_0000_0000) as u128)
    }
}

/// Values `amount` in token1 units of the pool. An amount of token1 is its own
/// value.
pub fn value_in_token1(ref_sqrt_x64: u128, amount: u64, amount_is_pool_token0: bool) -> (r: Option<
    u128,
>)
    ensures
        r == token1_value(ref_sqrt_x64 as int, amount as int, amount_is_pool_token0),
{
    if !amount_is_pool_token0 {
        return Some(amount as u128);
    }
    let p: u128 = match square_half(ref_sqrt_x64) {
        Some(p) => p,
        None => return None,
    };
    match (amount as u128).checked_mul(p) {
        Some(raw) => Some(raw / 0x1_0000_0000_0000_0000),
        None => None,
    }
}

/// `n`, or `u128::MAX` if that is smaller.
pub open spec fn clamp_u128(n: int) -> int {
    if n > u128::MAX {
        u128::MAX as int
    } else {
        n
    }
}

/// The distance between two prices.
pub open spec fn distance(a: int, b: int) -> int {
    if a > b {
        a - b
    } else {
        b - a
    }
}

/// `spot` lies within `bps` basis points of `reference`. Both products saturate
/// at 128 bits.
pub open spec fn within_deviation(spot: int, reference: int, bps: int) -> bool {
    clamp_u128(distance(spot, reference) * 10_000) <= clamp_u128(reference * bps)
}

/// Tells whether the spot square-root price is within `max_deviation_bps` of
/// the reference.
pub fn sqrt_within_deviation(spot_sqrt: u128, ref_sqrt: u128, max_deviation_bps: u128) -> (r: bool)
    ensures
        r == within_deviation(spot_sqrt as int, ref_sqrt as int, max_deviation_bps as int),
{
    let deviation: u128 = if spot_sqrt > ref_sqrt {
        spot_sqrt - ref_sqrt
    } else {
        ref_sqrt - spot_sqrt
    };
    saturating_mul(deviation, 10_000) <= saturating_mul(ref_sqrt, max_deviation_bps)
}

/// A wider band accepts every price that a narrower one accepts. So a move that
/// lets a deposit through lets a withdrawal through.
pub proof fn law_wider_band_accepts_more(spot: int, reference: int, narrow: int, wide: int)
    requires
        0 <= reference,
        0 <= narrow <= wide,
        within_deviation(spot, reference, narrow),
    ensures
        within_deviation(spot, reference, wide),
{
    assert(reference * narrow <= reference * wide) by (nonlinear_arith)
        requires
            0 <= reference,
            narrow <= wide,
    ;
}

/// Where nothing saturates, the band is exact: at most `bps` ten-thousandths of
/// the reference on either side.
pub proof fn law_band_is_exact(spot: int, reference: int, bps: int)
    requires
        0 <= distance(spot, reference) * 10_000 <= u128::MAX,
        0 <= reference * bps <= u128::MAX,
    ensures
        within_deviation(spot, reference, bps) <==> distance(spot, reference) * 10_000
            <= reference * bps,
{
}

/// The floor under a swap gives up no more than one percent of what the
/// reference price yields, rounded down.
pub proof fn law_floor_is_within_one_percent(
    ref_sqrt_x64: int,
    amount_in: int,
    input_is_pool_token0: bool,
)
    requires
        min_out_floor(ref_sqrt_x64, amount_in, input_is_pool_token0) is Some,
    ensures
        expected_output(ref_sqrt_x64, amount_in, input_is_pool_token0) is Some,
        ({
            let expected = expected_output(ref_sqrt_x64, amount_in, input_is_pool_token0)->0;
            let floor = min_out_floor(ref_sqrt_x64, amount_in, input_is_pool_token0)->0;
            &&& floor * 100 <= expected * 99
            &&& expected * 99 < floor * 100 + 100
        }),
{
}

/// A position priced in token1 and the output expected of selling it agree.
pub proof fn law_value_is_expected_output(ref_sqrt_x64: int, amount: u64)
    requires
        0 <= ref_sqrt_x64 <= u128::MAX,
    ensures
        expected_output(ref_sqrt_x64, amount as int, true) == (match token1_value(
            ref_sqrt_x64,
            amount as int,
            true,
        ) {
            Some(v) => Some(v as int),
            None => None,
        }),
{
    let p = price_x64(ref_sqrt_x64);
    let half = ref_sqrt_x64 / 0x1_0000_0000;
    assert(half * half >= 0) by (nonlinear_arith);
    assert(amount * p >= 0) by (nonlinear_arith)
        requires
            p >= 0,
            amount >= 0,
    ;
}

/// The price of token0 and that in a pool that lists the tokens the other way
/// round are reciprocal up to rounding: their product is the scale squared, give
/// or take one unit of each.
pub proof fn law_inverted_price_is_reciprocal(
    sqrt_price_x64: int,
    decimals: int,
    direct: u64,
    inverted: u64,
)
    requires
        0 <= decimals,
        sqrt_price_x64 >= 0,
        token0_price(sqrt_price_x64, true, decimals) == Some(direct),
        token0_price(sqrt_price_x64, false, decimals) == Some(inverted),
    ensures
        direct * inverted <= pow10(decimals) * pow10(decimals),
        pow10(decimals) * pow10(decimals) < (direct + 1) * (inverted + 1),
{
    let p = price_x64(sqrt_price_x64);
    let s = pow10(decimals);
    let q = 0x1_0000_0000_0000_0000int;
    lemma_pow_positive(10, decimals as nat);
    let half = sqrt_price_x64 / 0x1_0000_0000;
    assert(half * half >= 0) by (nonlinear_arith);
    let x = direct as int;
    let y = inverted as int;
    lemma_div_bounds(p * s, q);
    lemma_div_bounds(s * q, p);
    lemma_reciprocal_floors(p, s, q, x, y);
}

/// Rounding both `p * s / q` and `s * q / p` down brackets `s` squared.
proof fn lemma_reciprocal_floors(p: int, s: int, q: int, x: int, y: int)
    requires
        p > 0,
        s > 0,
        q > 0,
        x >= 0,
        y >= 0,
        x * q <= p * s < x * q + q,
        y * p <= s * q < y * p + p,
    ensures
        x * y <= s * s,
        s * s < (x + 1) * (y + 1),
{
    let d = q * p;
    assert(d > 0) by (nonlinear_arith)
        requires
            d == q * p,
            q > 0,
            p > 0,
    ;
    assert((x * q) * (y * p) <= (p * s) * (s * q)) by (nonlinear_arith)
        requires
            0 <= x * q <= p * s,
            0 <= y * p <= s * q,
    ;
    assert((x * q) * (y * p) == (x * y) * d) by (nonlinear_arith)
        requires
            d == q * p,
    ;
    assert((p * s) * (s * q) == (s * s) * d) by (nonlinear_arith)
        requires
            d == q * p,
    ;
    assert(x * y <= s * s) by (nonlinear_arith)
        requires
            (x * y) * d <= (s * s) * d,
            d > 0,
    ;
    assert(x * q + q == (x + 1) * q) by (nonlinear_arith);
    assert(y * p + p == (y + 1) * p) by (nonlinear_arith);
    assert(p * s > 0 && s * q > 0) by (nonlinear_arith)
        requires
            p > 0,
            s > 0,
            q > 0,
    ;
    assert((p * s) * (s * q) < ((x + 1) * q) * ((y + 1) * p)) by (nonlinear_arith)
        requires
            0 < p * s < (x + 1) * q,
            0 < s * q < (y + 1) * p,
    ;
    assert(((x + 1) * q) * ((y + 1) * p) == ((x + 1) * (y + 1)) * d) by (nonlinear_arith)
        requires
            d == q * p,
    ;
    assert(s * s < (x + 1) * (y + 1)) by (nonlinear_arith)
        requires
            (s * s) * d < ((x + 1) * (y + 1)) * d,
            d > 0,
    ;
}

} // verus!
