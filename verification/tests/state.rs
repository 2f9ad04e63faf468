//! The share, price, tick and range formulas.

use vault::constants::DEAD_SHARES;
use vault::state::{
    get_amount_0_delta, get_amount_1_delta, get_sqrt_price_at_tick, sqrt_price_to_price,
    sqrt_within_deviation, swap_min_out_floor, validate_position_range, Vault,
    MAX_SQRT_DEVIATION_BPS, MAX_SQRT_DEVIATION_WITHDRAW_BPS,
};

const Q64: u128 = 1u128 << 64;

#[test]
fn sqrt_at_tick_zero_is_one() {
    // price(0) = 1.0 → sqrt_price_x64 = 2^64
    assert_eq!(get_sqrt_price_at_tick(0), Q64);
}

#[test]
fn positive_ticks_not_broken() {
    let s_pos = get_sqrt_price_at_tick(28230);
    let s_neg = get_sqrt_price_at_tick(-28230);
    assert!(s_pos > Q64, "positive tick must be > 2^64, got {}", s_pos);
    assert!(s_neg < Q64, "negative tick must be < 2^64, got {}", s_neg);
    assert!(s_neg < get_sqrt_price_at_tick(0));
    assert!(get_sqrt_price_at_tick(0) < s_pos, "must be monotonic");
}

#[test]
fn sqrt_reciprocal_symmetry() {
    // price(t)·price(-t) = 1 → sqrt(t) ≈ 2^128 / sqrt(-t).
    for t in [60i32, 1000, 28230, 100000, 200000] {
        let s_pos = get_sqrt_price_at_tick(t);
        let s_neg = get_sqrt_price_at_tick(-t);
        let expected = u128::MAX / s_pos; // ≈ 2^128 / s_pos
        let diff = if s_neg > expected { s_neg - expected } else { expected - s_neg };
        // tolerance 1e-5 relative (our true error is ~1e-10)
        assert!(
            diff.saturating_mul(100_000) <= expected.max(1),
            "tick {} reciprocal off: s_neg={} expected={}", t, s_neg, expected
        );
    }
}

#[test]
fn amount_1_delta_exact() {
    // amount1 = L·(sqrt_hi − sqrt_lo) >> 64
    assert_eq!(get_amount_1_delta(Q64, Q64 + Q64, 1000), 1000);       // diff = 2^64 → L
    assert_eq!(get_amount_1_delta(Q64, Q64 + (1u128 << 63), 1000), 500); // diff = 2^63 → L/2
    assert_eq!(get_amount_1_delta(Q64, Q64 + (1u128 << 62), 4000), 1000); // diff = 2^62 → L/4
}

#[test]
fn delta_zero_edge_cases() {
    assert_eq!(get_amount_0_delta(Q64, Q64, 1000), 0);     // lo == hi
    assert_eq!(get_amount_1_delta(Q64, Q64, 1000), 0);     // lo == hi
    assert_eq!(get_amount_0_delta(Q64, 2 * Q64, 0), 0);    // L == 0
    assert_eq!(get_amount_1_delta(Q64, 2 * Q64, 0), 0);    // L == 0
}

#[test]
fn amount_0_delta_positive_and_bounded() {
    // token0 = L·(√hi−√lo)/(√lo·√hi) — positive for a valid in-range span.
    let lo = Q64;
    let hi = Q64 + (1u128 << 60);
    let a0 = get_amount_0_delta(lo, hi, 1_000_000_000);
    assert!(a0 > 0, "amount0 must be positive for a valid range");
    // sanity upper bound: amount0 < L for a narrow range above 1.0
    assert!((a0 as u128) < 1_000_000_000);
}

#[test]
fn swap_floor_rejects_lowball() {
    // At price 1.0 (sqrt = 2^64), selling 1_000_000 token0 → expect ~1_000_000 token1.
    // Floor = expected · (1 − 1%) ≈ 990_000. A min_out of 1 must be below the floor.
    let floor = swap_min_out_floor(Q64, 1_000_000, true).unwrap();
    assert!(floor > 900_000 && floor <= 1_000_000, "floor={}", floor);
    assert!(1 < floor, "min_out=1 must be rejected by the floor");
}

#[test]
fn m2_only_dead_shares_does_not_lock_out() {
    // After everyone withdraws, total_shares is stuck at DEAD_SHARES and TVL ≈ dust.
    // A large next deposit must NOT overflow — calculate_shares_to_mint must treat
    // "only dead shares remain" as a fresh start.
    let mut v = Vault::default();
    v.total_shares = DEAD_SHARES;            // 1000 phantom shares left
    let big_deposit = 1_000_000_000_000u64;  // 1M USDC-equiv
    let dust_tvl = 3u64;                     // pennies of leftover value

    // In proportion this would be big_deposit × 1000 / 3 → > u64::MAX.
    let shares = v.calculate_shares_to_mint(big_deposit, dust_tvl)
        .expect("must not overflow when only dead shares remain");
    assert_eq!(shares, big_deposit, "fresh-start: 1:1 share price");
}

#[test]
fn shares_mint_normal_ratio() {
    // Normal case still uses the ratio: deposit × total_shares / tvl.
    let mut v = Vault::default();
    v.total_shares = 1_000_000;
    let shares = v.calculate_shares_to_mint(100, 200).unwrap(); // 100 × 1e6 / 200
    assert_eq!(shares, 500_000);
}

#[test]
fn range_accepts_legit_symmetric() {
    // Bot opens a symmetric ±range around current price → current ≈ center.
    // spacing=1, current=0, range ±1000 ticks.
    assert!(validate_position_range(-1000, 1000, 0, 1).is_ok());
    // Slightly off-center but within 20% bound: current at 35% of width.
    assert!(validate_position_range(-1000, 1000, -300, 1).is_ok());
}

#[test]
fn range_rejects_out_of_range() {
    // current price entirely below the range → one-sided.
    assert!(validate_position_range(1000, 3000, 0, 1).is_err());
    // current above the range.
    assert!(validate_position_range(-3000, -1000, 0, 1).is_err());
}

#[test]
fn range_rejects_edge_skew() {
    // current at 95% of the range (near upper edge) → near-one-sided.
    // width=2000, current at -1000+1900 = 900 → right side = 100 < 20%(400).
    assert!(validate_position_range(-1000, 1000, 900, 1).is_err());
}

#[test]
fn range_rejects_too_narrow() {
    // width 4 < MIN (8 spacings × spacing 1).
    assert!(validate_position_range(-2, 2, 0, 1).is_err());
}

#[test]
fn range_respects_tick_spacing() {
    // spacing=60: MIN width = 8×60 = 480. A 300-wide range is too narrow.
    assert!(validate_position_range(-150, 150, 0, 60).is_err());
    // 600-wide centered range passes.
    assert!(validate_position_range(-300, 300, 0, 60).is_ok());
}

#[test]
fn deviation_band_deposit_vs_withdraw() {
    // bps are on the sqrt price; price deviation ≈ 2× sqrt deviation.
    let reference = 1_000_000u128;
    let within = |pct_sqrt: i64, bps: u128| {
        let spot = (reference as i64 + reference as i64 * pct_sqrt / 100) as u128;
        sqrt_within_deviation(spot, reference, bps)
    };

    // Deposit band (250 bps sqrt ≈ 5% price): tolerates normal volatility...
    assert!(within(2, MAX_SQRT_DEVIATION_BPS));   // +2% sqrt — passes
    assert!(within(-2, MAX_SQRT_DEVIATION_BPS));  // symmetric
    // ...but still rejects a large flash move.
    assert!(!within(4, MAX_SQRT_DEVIATION_BPS));  // +4% sqrt > 2.5% band

    // Withdraw band (500 bps ≈ 10% price) is strictly softer: a move that
    // would block a deposit still lets the user exit.
    assert!(within(4, MAX_SQRT_DEVIATION_WITHDRAW_BPS));
    assert!(within(-4, MAX_SQRT_DEVIATION_WITHDRAW_BPS));
    // Withdraw band is wider than deposit band.
    assert!(MAX_SQRT_DEVIATION_WITHDRAW_BPS > MAX_SQRT_DEVIATION_BPS);
}

#[test]
fn deviation_band_exact_boundary() {
    // Exactly at the band edge passes; one unit past fails.
    let reference = 10_000_000u128;
    // 250 bps of 10_000_000 = 250_000 absolute sqrt deviation allowed.
    assert!(sqrt_within_deviation(reference + 250_000, reference, MAX_SQRT_DEVIATION_BPS));
    assert!(!sqrt_within_deviation(reference + 250_001, reference, MAX_SQRT_DEVIATION_BPS));
}

#[test]
fn sqrt_price_to_price_both_branches() {
    // Q64.64 of 1.0 → pool price P = 1. With 6 decimals, 1 token0 = 1e6 token1.
    let one = 1u128 << 64;
    assert_eq!(sqrt_price_to_price(one, true, 6, 6), Some(1_000_000));
    // Inverted pool at P=1 is still 1.
    assert_eq!(sqrt_price_to_price(one, false, 6, 6), Some(1_000_000));

    // sqrt_price for pool price P = 4 → sqrt = 2 (Q64.64 = 2 * 2^64).
    let sqrt_p4 = 2u128 << 64;
    // Non-inverted: 1 token0 = 4 token1 → 4e6 at 6 decimals.
    assert_eq!(sqrt_price_to_price(sqrt_p4, true, 6, 6), Some(4_000_000));
    // Inverted: price flips to 1/4 → 0.25 = 250_000 at 6 decimals.
    assert_eq!(sqrt_price_to_price(sqrt_p4, false, 6, 6), Some(250_000));
}

#[test]
fn sqrt_price_to_price_inverted_is_reciprocal() {
    // non_inverted × inverted ≈ scale^2 (10^6 × 10^6 = 10^12) within rounding.
    let sqrt_p4 = 2u128 << 64;
    let direct = sqrt_price_to_price(sqrt_p4, true, 6, 6).unwrap() as u128;
    let inverted = sqrt_price_to_price(sqrt_p4, false, 6, 6).unwrap() as u128;
    assert_eq!(direct * inverted, 1_000_000_000_000);
}

#[test]
fn sqrt_price_to_price_zero_sqrt_is_none() {
    // sqrt so small that the >>32 intermediate is 0 → None, never a divide-by-zero.
    assert_eq!(sqrt_price_to_price(1, true, 6, 6), None);
    assert_eq!(sqrt_price_to_price(1, false, 6, 6), None);
}

#[test]
fn shares_mint_dust_tvl_does_not_overflow() {
    // DEAD_SHARES + a tiny stuck holder, TVL collapsed to dust. A large
    // deposit must NOT revert — it falls back to fresh-start pricing.
    let mut v = Vault::default();
    v.total_shares = DEAD_SHARES + 5; // just above the dead-shares floor
    let dust_tvl = 1u64;              // ~zero value left in the vault
    let shares = v
        .calculate_shares_to_mint(u64::MAX, dust_tvl)
        .expect("must not revert");
    assert_eq!(shares, u64::MAX); // fresh-start fallback
}
