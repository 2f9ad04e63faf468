//! Square-root prices at ticks.
//!
//! Tick `t` stands for the price 1.0001^t. Its square root is kept in Q64.64
//! and built from a table of precomputed factors, one per bit of |t|.

use crate::math::{lemma_div_bounds, lemma_div_mono, lemma_div_unique};
use vstd::arithmetic::div_mod::{lemma_div_denominator, lemma_fundamental_div_mod, lemma_mod_bound};
use vstd::arithmetic::power2::{
    lemma2_to64, lemma_pow2_adds, lemma_pow2_pos, lemma_pow2_strictly_increases, lemma_pow2_unfold,
    pow2,
};
use vstd::prelude::*;

verus! {

/// Smallest tick that a pool can reach.
pub const MIN_TICK: i32 = -443636;

/// Largest tick that a pool can reach.
pub const MAX_TICK: i32 = 443636;

/// Entry `k` is 1.0001^(-2^k / 2) in Q0.64.
pub const TICK_FACTORS: [u64; 19] = [
    0xfffc_b933_bd6f_b800,
    0xfff9_7272_373d_4000,
    0xfff2_e50f_5f65_7000,
    0xffe5_caca_7e10_f000,
    0xffcb_9843_d60f_7000,
    0xff97_3b41_fa98_e800,
    0xff2e_a164_66c9_b000,
    0xfe5d_ee04_6a9a_3800,
    0xfcbe_86c7_900b_b000,
    0xf987_a725_3ac6_5800,
    0xf339_2b08_22bb_6000,
    0xe715_9475_a2ca_f000,
    0xd097_f3bd_fd2f_2000,
    0xa9f7_4646_2d9f_8000,
    0x70d8_69a1_56f3_1c00,
    0x31be_135f_97ed_3200,
    0x9aa_508b_5b85_a500,
    0x5d_6af8_dedc_582c,
    0x2216_e584_f5fa,
];

/// 2^64, the Q64.64 form of one.
pub open spec fn one_x64() -> int {
    0x1_0000_0000_0000_0000
}

/// Bit `k` of `n`.
pub open spec fn has_bit(n: nat, k: nat) -> bool {
    (n / pow2(k)) % 2 == 1
}

/// The table factor of bit `k`.
pub open spec fn tick_factor(k: nat) -> int {
    TICK_FACTORS[k as int] as int
}

/// The product, rounded down after each step, of the table factors that the
/// lowest `k` bits of `abs_tick` select.
pub open spec fn tick_ratio(abs_tick: nat, k: nat) -> int
    decreases k,
{
    if k == 0 {
        one_x64()
    } else {
        let r = tick_ratio(abs_tick, (k - 1) as nat);
        if has_bit(abs_tick, (k - 1) as nat) {
            r * tick_factor((k - 1) as nat) / one_x64()
        } else {
            r
        }
    }
}

/// The magnitude of a tick.
pub open spec fn tick_magnitude(tick: int) -> nat {
    if tick < 0 {
        (-tick) as nat
    } else {
        tick as nat
    }
}

/// The square-root price at `tick` in Q64.64. A positive tick takes the
/// reciprocal of its negative counterpart.
pub open spec fn sqrt_price_at_tick(tick: int) -> int {
    let ratio = tick_ratio(tick_magnitude(tick), 19);
    if tick > 0 {
        u128::MAX as int / ratio
    } else {
        ratio
    }
}

/// The ratio when all of the lowest `k` bits are set: the least it can be.
spec fn ratio_floor(k: nat) -> int
    decreases k,
{
    if k == 0 {
        one_x64()
    } else {
        ratio_floor((k - 1) as nat) * tick_factor((k - 1) as nat) / one_x64()
    }
}

/// A lower bound on how far the ratios of neighbouring ticks stay apart after
/// `k` bits.
spec fn ratio_gap(k: nat) -> int
    decreases k,
{
    if k == 0 {
        0x2_0000_0000_0000
    } else {
        ratio_gap((k - 1) as nat) * tick_factor((k - 1) as nat) / one_x64()
    }
}

/// One step of both chains on known numbers.
proof fn lemma_table_step(k: nat, floor: int, gap: int, factor: int)
    requires
        k < 19,
        ratio_floor(k) == floor,
        ratio_gap(k) == gap,
        tick_factor(k) == factor,
    ensures
        ratio_floor((k + 1) as nat) == floor * factor / one_x64(),
        ratio_gap((k + 1) as nat) == gap * factor / one_x64(),
{
}

/// What the table comes to: the two chains stay positive, and each factor lies
/// below the product of all factors before it by at least the gap.
proof fn lemma_table()
    ensures
        ratio_floor(19) > 0,
        ratio_gap(19) > 0,
        forall|k: nat| k < 19 ==> 0 < #[trigger] tick_factor(k) < one_x64(),
        forall|k: nat|
            k < 19 ==> ratio_floor(k) - #[trigger] tick_factor(k) >= ratio_gap((k + 1) as nat),
{
    assert(ratio_floor(0) == one_x64());
    assert(ratio_gap(0) == 0x2_0000_0000_0000);
    lemma_table_step(0, 0x1_0000_0000_0000_0000, 0x2_0000_0000_0000, 0xfffc_b933_bd6f_b800);
    lemma_table_step(1, 0xfffc_b933_bd6f_b800, 0x1_fff9_7267_7adf, 0xfff9_7272_373d_4000);
    lemma_table_step(2, 0xfff6_2bbb_6d45_9859, 0x1_ffec_5776_da8a, 0xfff2_e50f_5f65_7000);
    lemma_table_step(3, 0xffe9_114b_9cf2_9d9a, 0x1_ffd2_2297_39e4, 0xffe5_caca_7e10_f000);
    lemma_table_step(4, 0xffce_de6f_1d8c_0483, 0x1_ff9d_bcde_3b16, 0xffcb_9843_d60f_7000);
    lemma_table_step(5, 0xff9a_80c1_ada7_7220, 0x1_ff35_0183_5b4c, 0xff97_3b41_fa98_e800);
    lemma_table_step(6, 0xff31_e58d_5a54_19c2, 0x1_fe63_cb1a_b4a5, 0xff2e_a164_66c9_b000);
    lemma_table_step(7, 0xfe61_2f81_83b2_80e0, 0x1_fcc2_5f03_0761, 0xfe5d_ee04_6a9a_3800);
    lemma_table_step(8, 0xfcc1_c2f3_8054_95f4, 0x1_f983_85e7_00a5, 0xfcbe_86c7_900b_b000);
    lemma_table_step(9, 0xf98a_d8c8_d7ef_0a9a, 0x1_f315_b191_afd9, 0xf987_a725_3ac6_5800);
    lemma_table_step(10, 0xf33c_4801_89b8_868b, 0x1_e678_9003_136c, 0xf339_2b08_22bb_6000);
    lemma_table_step(11, 0xe718_89a8_590c_5dc9, 0x1_ce31_1350_b213, 0xe715_9475_a2ca_f000);
    lemma_table_step(12, 0xd09a_9f3e_93ea_6d30, 0x1_a135_3e7d_27cf, 0xd097_f3bd_fd2f_2000);
    lemma_table_step(13, 0xa9f9_7334_5bb6_e56f, 0x1_53f2_e668_b769, 0xa9f7_4646_2d9f_8000);
    lemma_table_step(14, 0x70d9_db64_8610_cc7e, 0xe1b3_b6c9_0c1e, 0x70d8_69a1_56f3_1c00);
    lemma_table_step(15, 0x31be_b65d_91cc_07af, 0x637d_6cbb_2396, 0x31be_135f_97ed_3200);
    lemma_table_step(16, 0x9aa_7036_fd2e_7648, 0x1354_e06d_fa5c, 0x9aa_508b_5b85_a500);
    lemma_table_step(17, 0x5d_6c2a_f97b_81a7, 0xba_d855_f2f6, 0x5d_6af8_dedc_582c);
    lemma_table_step(18, 0x2217_5538_8b03, 0x442e_aa71, 0x2216_e584_f5fa);
    assert(ratio_floor(19) == 0x48a_25e3);
    assert(ratio_gap(19) == 0x914);
}

/// Scaling by a factor below one is monotone, keeps a difference at least as
/// large as the scaled difference, and shrinks a positive number.
proof fn lemma_scale(x: int, y: int, c: int)
    requires
        x >= y >= 0,
        0 < c < one_x64(),
    ensures
        0 <= y * c / one_x64() <= x * c / one_x64(),
        x * c / one_x64() - y * c / one_x64() >= (x - y) * c / one_x64(),
        x * c / one_x64() <= x,
        x > 0 ==> x * c / one_x64() < x,
{
    let q = one_x64();
    assert(y * c >= 0 && x * c >= y * c && x * c == y * c + (x - y) * c) by (nonlinear_arith)
        requires
            x >= y >= 0,
            0 < c,
    ;
    assert(x * c <= x * q) by (nonlinear_arith)
        requires
            x >= 0,
            0 < c < q,
    ;
    if x > 0 {
        assert(x * c < x * q) by (nonlinear_arith)
            requires
                x > 0,
                0 < c < q,
        ;
    }
}

/// A ratio lies between the floor for its number of bits and one.
proof fn lemma_ratio_bounds(abs_tick: nat, k: nat)
    requires
        k <= 19,
    ensures
        0 <= ratio_floor(k) <= tick_ratio(abs_tick, k) <= one_x64(),
    decreases k,
{
    if k > 0 {
        let j = (k - 1) as nat;
        lemma_ratio_bounds(abs_tick, j);
        lemma_table();
        lemma_scale(tick_ratio(abs_tick, j), ratio_floor(j), tick_factor(j));
        lemma_scale(ratio_floor(j), 0, tick_factor(j));
        assert(0 * tick_factor(j) == 0) by (nonlinear_arith);
    }
}

/// The ratio over all bits is positive.
proof fn lemma_ratio_positive(abs_tick: nat)
    ensures
        0 < tick_ratio(abs_tick, 19) <= one_x64(),
{
    lemma_ratio_bounds(abs_tick, 19);
    lemma_table();
}

/// The square-root price in Q64.64 at a tick, from the table of factors.
///
/// Every intermediate product is rounded down to 64 fractional bits; a positive
/// tick inverts the ratio of its negative counterpart without rounding up. Only
/// the lowest 19 bits of the magnitude matter.
pub fn get_sqrt_price_at_tick(tick: i32) -> (r: u128)
    ensures
        r == sqrt_price_at_tick(tick as int),
        r > 0,
{
    let abs_tick: u64 = if tick < 0 {
        (-(tick as i64)) as u64
    } else {
        tick as u64
    };
    let one: u128 = 0x1_0000_0000_0000_0000;
    let mut rest: u64 = abs_tick;
    let mut ratio: u128 = one;
    let mut k: usize = 0;
    proof {
        lemma2_to64();
    }
    while k < 19
        invariant
            k <= 19,
            one == one_x64(),
            rest == abs_tick as nat / pow2(k as nat),
            ratio == tick_ratio(abs_tick as nat, k as nat),
        decreases 19 - k,
    {
        proof {
            lemma_ratio_bounds(abs_tick as nat, k as nat);
            lemma_ratio_bounds(abs_tick as nat, (k + 1) as nat);
            lemma_table();
            let c = tick_factor(k as nat);
            assert(0 <= ratio * c <= one_x64() * one_x64() - one_x64()) by (nonlinear_arith)
                requires
                    0 <= ratio <= one_x64(),
                    0 < c <= one_x64() - 1,
            ;
            lemma_pow2_pos(k as nat);
            lemma_div_denominator(abs_tick as int, pow2(k as nat) as int, 2);
            lemma_pow2_unfold((k + 1) as nat);
            assert(pow2(k as nat) * 2 == pow2((k + 1) as nat));
        }
        if rest % 2 == 1 {
            ratio = ratio * (TICK_FACTORS[k] as u128) / one;
        }
        rest = rest / 2;
        k = k + 1;
    }
    proof {
        lemma_ratio_positive(abs_tick as nat);
    }
    if tick > 0 {
        proof {
            lemma_div_bounds(u128::MAX as int, ratio as int);
            lemma_div_mono(ratio as int, u128::MAX as int, ratio as int);
            lemma_div_unique(ratio as int, ratio as int, 1);
        }
        u128::MAX / ratio
    } else {
        ratio
    }
}

/// How the bits of `n + 1` relate to those of `n` above bit `k`.
proof fn lemma_successor_bits(n: nat, k: nat)
    ensures
        n % pow2(k) == pow2(k) - 1 ==> (n + 1) / pow2(k) == n / pow2(k) + 1,
        n % pow2(k) != pow2(k) - 1 ==> (n + 1) / pow2(k) == n / pow2(k),
{
    let p = pow2(k) as int;
    lemma_pow2_pos(k);
    lemma_fundamental_div_mod(n as int, p);
    lemma_mod_bound(n as int, p);
    let q = n as int / p;
    assert(p * q == q * p) by (nonlinear_arith);
    if n as int % p == p - 1 {
        assert((q + 1) * p == q * p + p) by (nonlinear_arith);
        lemma_div_unique((n + 1) as int, p, q + 1);
    } else {
        lemma_div_unique((n + 1) as int, p, q);
    }
}

/// How the residue of `n` grows by one bit.
proof fn lemma_residue_step(n: nat, k: nat)
    ensures
        n % pow2((k + 1) as nat) == n % pow2(k) + (if has_bit(n, k) {
            pow2(k) as int
        } else {
            0
        }),
{
    let p = pow2(k) as int;
    lemma_pow2_pos(k);
    lemma_pow2_unfold((k + 1) as nat);
    vstd::arithmetic::div_mod::lemma_mod_breakdown(n as int, p, 2);
    assert(p * ((n as int / p) % 2) == if has_bit(n, k) { p } else { 0 }) by {
        assert((n as int / p) % 2 == 1 ==> p * ((n as int / p) % 2) == p) by (nonlinear_arith);
        assert((n as int / p) % 2 == 0 ==> p * ((n as int / p) % 2) == 0) by (nonlinear_arith);
    }
}

/// After `k` bits, either `n` has shown only ones and `n + 1` only zeros, or
/// the two ratios are apart by the gap.
#[verifier::spinoff_prover]
#[verifier::rlimit(60)]
proof fn lemma_neighbour_gap(n: nat, k: nat)
    requires
        k <= 19,
    ensures
        n % pow2(k) == pow2(k) - 1 ==> tick_ratio(n, k) == ratio_floor(k) && tick_ratio(
            (n + 1) as nat,
            k,
        ) == one_x64(),
        n % pow2(k) != pow2(k) - 1 ==> tick_ratio(n, k) - tick_ratio((n + 1) as nat, k)
            >= ratio_gap(k),
    decreases k,
{
    if k == 0 {
        lemma2_to64();
    } else {
        let j = (k - 1) as nat;
        let m = (n + 1) as nat;
        let c = tick_factor(j);
        lemma_neighbour_gap(n, j);
        lemma_table();
        lemma_pow2_pos(j);
        lemma_pow2_unfold(k);
        lemma_successor_bits(n, j);
        lemma_residue_step(n, j);
        lemma_mod_bound(n as int, pow2(j) as int);
        lemma_ratio_bounds(n, j);
        lemma_ratio_bounds(m, j);
        if n % pow2(j) == pow2(j) - 1 {
            assert(one_x64() * c / one_x64() == c) by {
                assert(one_x64() * c == c * one_x64()) by (nonlinear_arith);
                lemma_div_unique(one_x64() * c, one_x64(), c);
            }
        } else {
            assert(has_bit(n, j) == has_bit(m, j));
            assert(ratio_gap(j) >= 0) by {
                lemma_gap_nonnegative(j);
            }
            lemma_gap_nonnegative(k);
            lemma_scale(tick_ratio(n, j), tick_ratio(m, j), c);
            let d = tick_ratio(n, j) - tick_ratio(m, j);
            lemma_scale(d, ratio_gap(j), c);
        }
    }
}

/// The gap never turns negative.
proof fn lemma_gap_nonnegative(k: nat)
    requires
        k <= 19,
    ensures
        ratio_gap(k) >= 0,
    decreases k,
{
    if k > 0 {
        let j = (k - 1) as nat;
        lemma_gap_nonnegative(j);
        lemma_table();
        lemma_scale(ratio_gap(j), 0, tick_factor(j));
        assert(0 * tick_factor(j) == 0) by (nonlinear_arith);
    }
}

/// The ratio falls with every step of the magnitude.
proof fn lemma_ratio_decreases(a: nat, b: nat)
    requires
        a < b < 0x8_0000,
    ensures
        tick_ratio(a, 19) > tick_ratio(b, 19),
    decreases b,
{
    let n = (b - 1) as nat;
    lemma2_to64();
    assert(n % pow2(19) == n) by {
        vstd::arithmetic::div_mod::lemma_small_mod(n, pow2(19));
    }
    lemma_neighbour_gap(n, 19);
    lemma_table();
    if a < n {
        lemma_ratio_decreases(a, n);
    }
}

/// The reciprocal of a smaller ratio is strictly larger, also after rounding.
proof fn lemma_reciprocal_increases(r: int, s: int)
    requires
        0 < s < r <= one_x64(),
    ensures
        u128::MAX as int / s > u128::MAX as int / r,
{
    let m = u128::MAX as int;
    let q = m / r;
    lemma_div_bounds(m, r);
    lemma_div_bounds(m, s);
    let q64 = one_x64();
    assert(q >= q64 - 1) by {
        if q < q64 - 1 {
            assert((q + 1) * r <= (q64 - 1) * q64) by (nonlinear_arith)
                requires
                    0 <= q < q64 - 1,
                    0 < r <= q64,
            ;
            assert((q + 1) * r == q * r + r) by (nonlinear_arith);
        }
    }
    assert((q + 1) * s <= m) by {
        assert((q + 1) * s == q * s + s) by (nonlinear_arith);
        assert(q * s <= q * r - q) by (nonlinear_arith)
            requires
                s <= r - 1,
                q >= 0,
        ;
    }
    if m / s <= q {
        assert((m / s + 1) * s <= (q + 1) * s) by (nonlinear_arith)
            requires
                m / s <= q,
                s > 0,
        ;
        assert((m / s + 1) * s == (m / s) * s + s) by (nonlinear_arith);
    }
}

/// Tick zero is the price one.
pub proof fn law_tick_zero_is_one()
    ensures
        sqrt_price_at_tick(0) == one_x64(),
{
    lemma_zero_ratio(19);
}

/// Zero selects no factor.
proof fn lemma_zero_ratio(k: nat)
    ensures
        tick_ratio(0, k) == one_x64(),
    decreases k,
{
    if k > 0 {
        lemma_zero_ratio((k - 1) as nat);
        lemma_pow2_pos((k - 1) as nat);
        vstd::arithmetic::div_mod::lemma_div_of0(pow2((k - 1) as nat) as int);
    }
}

/// A higher tick is a strictly higher price, over every tick that 19 bits can
/// hold, and so over all ticks of a pool.
pub proof fn law_sqrt_price_is_monotonic(a: int, b: int)
    requires
        -0x8_0000 < a < b < 0x8_0000,
    ensures
        sqrt_price_at_tick(a) < sqrt_price_at_tick(b),
{
    let ma = tick_magnitude(a);
    let mb = tick_magnitude(b);
    lemma_ratio_positive(ma);
    lemma_ratio_positive(mb);
    lemma_zero_ratio(19);
    if b <= 0 {
        lemma_ratio_decreases(mb, ma);
    } else {
        lemma_ratio_decreases(0, mb);
        if a > 0 {
            lemma_ratio_decreases(ma, mb);
            lemma_reciprocal_increases(tick_ratio(ma, 19), tick_ratio(mb, 19));
        } else {
            // The reciprocal of a ratio below one is above one.
            let r = tick_ratio(mb, 19);
            let m = u128::MAX as int;
            lemma_div_bounds(m, r);
            if m / r <= one_x64() {
                assert((m / r + 1) * r <= (one_x64() + 1) * (one_x64() - 1)) by (nonlinear_arith)
                    requires
                        0 <= m / r <= one_x64(),
                        0 < r <= one_x64() - 1,
                ;
                assert((m / r + 1) * r == (m / r) * r + r) by (nonlinear_arith);
            }
        }
    }
}

/// Opposite ticks are reciprocal: the product of their prices misses 2^128 by
/// no more than one unit of the smaller price.
pub proof fn law_opposite_ticks_are_reciprocal(tick: int)
    requires
        tick > 0,
    ensures
        sqrt_price_at_tick(tick) == u128::MAX as int / sqrt_price_at_tick(-tick),
        sqrt_price_at_tick(tick) * sqrt_price_at_tick(-tick) <= u128::MAX,
        u128::MAX < (sqrt_price_at_tick(tick) + 1) * sqrt_price_at_tick(-tick),
{
    lemma_ratio_positive(tick_magnitude(tick));
    let r = tick_ratio(tick_magnitude(tick), 19);
    let m = u128::MAX as int;
    lemma_div_bounds(m, r);
    assert((m / r + 1) * r == (m / r) * r + r) by (nonlinear_arith);
}

/// Below bit `k`, adding that bit changes nothing.
proof fn lemma_low_bits(n: nat, k: nat, i: nat)
    requires
        i < k,
    ensures
        has_bit(n + pow2(k), i) == has_bit(n, i),
{
    let p = pow2(i) as int;
    let half = pow2((k - i - 1) as nat) as int;
    let q = n as int / p;
    lemma_pow2_pos(i);
    lemma_pow2_adds(i, (k - i) as nat);
    lemma_pow2_unfold((k - i) as nat);
    lemma_div_bounds(n as int, p);
    assert((q + 2 * half) * p == q * p + pow2(k)) by (nonlinear_arith)
        requires
            pow2(k) as int == p * (2 * half),
    ;
    lemma_div_unique((n + pow2(k)) as int, p, q + 2 * half);
}

/// The ratio over the lowest `j` bits does not look at the bits above them.
proof fn lemma_low_ratio(n: nat, k: nat, j: nat)
    requires
        j <= k,
    ensures
        tick_ratio(n + pow2(k), j) == tick_ratio(n, j),
    decreases j,
{
    if j > 0 {
        lemma_low_ratio(n, k, (j - 1) as nat);
        lemma_low_bits(n, k, (j - 1) as nat);
    }
}

/// Bits beyond those of a number add nothing to its ratio.
proof fn lemma_high_ratio(n: nat, k: nat, j: nat)
    requires
        n < pow2(k),
        k <= j,
    ensures
        tick_ratio(n, j) == tick_ratio(n, k),
    decreases j,
{
    if k < j {
        let i = (j - 1) as nat;
        lemma_high_ratio(n, k, i);
        lemma_pow2_pos(i);
        if k < i {
            lemma_pow2_strictly_increases(k, i);
        }
        lemma_div_unique(n as int, pow2(i) as int, 0);
    }
}

/// The ratio of a number and one bit above it is the product of both.
proof fn lemma_ratio_of_sum(n: nat, k: nat)
    requires
        k < 19,
        n < pow2(k),
    ensures
        tick_ratio(n + pow2(k), 19) == tick_ratio(n, 19) * tick_factor(k) / one_x64(),
        tick_ratio(pow2(k), 19) == tick_factor(k),
{
    let next = (k + 1) as nat;
    let p = pow2(k) as int;
    lemma_pow2_pos(k);
    lemma_pow2_unfold(next);
    lemma_low_ratio(n, k, k);
    lemma_high_ratio(n, k, 19);
    lemma_div_unique((n + pow2(k)) as int, p, 1);
    assert(has_bit(n + pow2(k), k));
    lemma_high_ratio(n + pow2(k), next, 19);
    lemma_low_ratio(0, k, k);
    lemma_zero_ratio(k);
    lemma_div_unique(p, p, 1);
    assert(has_bit(pow2(k), k));
    lemma_high_ratio(pow2(k), next, 19);
    assert(0 + pow2(k) == pow2(k));
    assert(tick_ratio(pow2(k), next) == one_x64() * tick_factor(k) / one_x64());
    assert(one_x64() * tick_factor(k) / one_x64() == tick_factor(k)) by {
        lemma_div_unique(one_x64() * tick_factor(k), one_x64(), tick_factor(k));
    }
}

/// Ticks add as prices multiply: the price a power of two below some tick that is
/// nearer to zero is the product of the two prices, rounded down.
pub proof fn law_ticks_add_as_prices_multiply(
    n: i32,
    step: i32,
    k: nat,
    near: u128,
    far: u128,
    sum: u128,
)
    requires
        k < 19,
        step == pow2(k),
        0 <= n < step,
        call_ensures(get_sqrt_price_at_tick, (-n as i32,), near),
        call_ensures(get_sqrt_price_at_tick, (-step as i32,), far),
        call_ensures(get_sqrt_price_at_tick, ((-n - step) as i32,), sum),
    ensures
        sum * 0x1_0000_0000_0000_0000 <= near * far < (sum + 1) * 0x1_0000_0000_0000_0000,
{
    lemma2_to64();
    if k < 18 {
        lemma_pow2_strictly_increases(k, 18);
    }
    lemma_ratio_of_sum(n as nat, k);
    assert(tick_magnitude(-n - step) == n as nat + pow2(k));
    lemma_div_bounds(near * far, one_x64());
}

/// Two neighbours in the table, where one is nearly the square of the other.
proof fn lemma_nearly_square(k: nat, factor: int, next: int)
    requires
        k < 18,
        tick_factor(k) == factor,
        tick_factor((k + 1) as nat) == next,
        -6_000 * 0x1_0000_0000_0000_0000int < factor * factor - next * 0x1_0000_0000_0000_0000int
            < 6_000 * 0x1_0000_0000_0000_0000int,
    ensures
        ({
            let error = tick_factor(k) * tick_factor(k) - tick_factor((k + 1) as nat) * one_x64();
            -6_000 * one_x64() < error < 6_000 * one_x64()
        }),
{
}

/// Each tick is a factor of 1.0001: doubling a tick that is a power of two squares
/// its price, up to 6,000 units in the last place, and ten thousand and one times
/// the square of the first price below one is ten thousand, up to one part in
/// 2^51.
pub proof fn law_each_tick_is_one_part_in_ten_thousand(
    step: i32,
    k: nat,
    once: u128,
    twice: u128,
)
    requires
        k < 18,
        step == pow2(k),
        call_ensures(get_sqrt_price_at_tick, (-step as i32,), once),
        call_ensures(get_sqrt_price_at_tick, ((-2 * step) as i32,), twice),
    ensures
        ({
            let error = once * once - twice * 0x1_0000_0000_0000_0000;
            -6_000 * 0x1_0000_0000_0000_0000int < error < 6_000 * 0x1_0000_0000_0000_0000int
        }),
        k == 0 ==> ({
            let one = 0x1_0000_0000_0000_0000_0000_0000_0000_0000int;
            0 <= 10_001 * (once * once) - 10_000 * one <= 10_000 * 0x2000_0000_0000_0000_0000int
        }),
{
    lemma2_to64();
    if k < 17 {
        lemma_pow2_strictly_increases(k, 17);
    }
    lemma_pow2_pos(k);
    lemma_pow2_unfold((k + 1) as nat);
    lemma_pow2_pos((k + 1) as nat);
    lemma_ratio_of_sum(0, k);
    lemma_ratio_of_sum(0, (k + 1) as nat);
    assert(tick_magnitude(-step as int) == pow2(k));
    assert(tick_magnitude(-2 * step) == pow2((k + 1) as nat));
    assert(once == tick_factor(k));
    assert(twice == tick_factor((k + 1) as nat));
    lemma_nearly_square(0, 0xfffc_b933_bd6f_b800, 0xfff9_7272_373d_4000);
    lemma_nearly_square(1, 0xfff9_7272_373d_4000, 0xfff2_e50f_5f65_7000);
    lemma_nearly_square(2, 0xfff2_e50f_5f65_7000, 0xffe5_caca_7e10_f000);
    lemma_nearly_square(3, 0xffe5_caca_7e10_f000, 0xffcb_9843_d60f_7000);
    lemma_nearly_square(4, 0xffcb_9843_d60f_7000, 0xff97_3b41_fa98_e800);
    lemma_nearly_square(5, 0xff97_3b41_fa98_e800, 0xff2e_a164_66c9_b000);
    lemma_nearly_square(6, 0xff2e_a164_66c9_b000, 0xfe5d_ee04_6a9a_3800);
    lemma_nearly_square(7, 0xfe5d_ee04_6a9a_3800, 0xfcbe_86c7_900b_b000);
    lemma_nearly_square(8, 0xfcbe_86c7_900b_b000, 0xf987_a725_3ac6_5800);
    lemma_nearly_square(9, 0xf987_a725_3ac6_5800, 0xf339_2b08_22bb_6000);
    lemma_nearly_square(10, 0xf339_2b08_22bb_6000, 0xe715_9475_a2ca_f000);
    lemma_nearly_square(11, 0xe715_9475_a2ca_f000, 0xd097_f3bd_fd2f_2000);
    lemma_nearly_square(12, 0xd097_f3bd_fd2f_2000, 0xa9f7_4646_2d9f_8000);
    lemma_nearly_square(13, 0xa9f7_4646_2d9f_8000, 0x70d8_69a1_56f3_1c00);
    lemma_nearly_square(14, 0x70d8_69a1_56f3_1c00, 0x31be_135f_97ed_3200);
    lemma_nearly_square(15, 0x31be_135f_97ed_3200, 0x9aa_508b_5b85_a500);
    lemma_nearly_square(16, 0x9aa_508b_5b85_a500, 0x5d_6af8_dedc_582c);
    lemma_nearly_square(17, 0x5d_6af8_dedc_582c, 0x2216_e584_f5fa);
}

} // verus!
