//! Exact values of the formulas, and their edges.

use vault::bytes::{push_le, read_i32, read_i64, read_le, read_u32, read_u64};
use vault::constants::{DEAD_SHARES, WSOL_MINT};
use vault::errors::VaultError;
use vault::liquidity::can_calculate_position_amounts;
use vault::math::{mul_div, or_zero, power_of_ten, saturating_mul};
use vault::price::{can_price, output_at};
use vault::pubkey::Pubkey;
use vault::state::{
    calculate_position_amounts, get_amount_0_delta, get_amount_1_delta, get_sqrt_price_at_tick,
    read_pool_sqrt_price_x64, read_pool_tick_current, read_pool_token_mint_0, seeds,
    shares_for_deposit,
    sqrt_price_to_price, sqrt_within_deviation, swap_min_out_floor, validate_position_range,
    value_in_token1, UserDeposit, Vault, MAX_TICK, MIN_TICK,
};
use vault::wide::U256;

const Q64: u128 = 1u128 << 64;

#[test]
fn powers_of_ten() {
    assert_eq!(power_of_ten(0), 1);
    assert_eq!(power_of_ten(18), 1_000_000_000_000_000_000);
    assert_eq!(power_of_ten(38), 100_000_000_000_000_000_000_000_000_000_000_000_000);
}

#[test]
fn mul_div_rounds_down_and_reports_overflow() {
    assert_eq!(mul_div(7, 3, 2), Some(10));
    assert_eq!(mul_div(u64::MAX, u64::MAX, u64::MAX as u128), Some(u64::MAX));
    assert_eq!(mul_div(u64::MAX, 2, 1), None);
    assert_eq!(or_zero(None), 0);
    assert_eq!(or_zero(Some(9)), 9);
    assert_eq!(saturating_mul(u128::MAX, 2), u128::MAX);
    assert_eq!(saturating_mul(6, 7), 42);
}

#[test]
fn wide_product_and_quotient() {
    let w = U256::mul_wide(u128::MAX, u128::MAX);
    assert_eq!((w.hi, w.lo), (u128::MAX - 1, 1));
    let q = w.div(u128::MAX);
    assert_eq!((q.hi, q.lo), (0, u128::MAX));
    assert_eq!((q.to_u128(), q.to_u64()), (Some(u128::MAX), None));
    assert_eq!((w.to_u128(), w.to_u64()), (None, None));
    assert_eq!(U256 { hi: 0, lo: 7 }.to_u64(), Some(7));
}

#[test]
fn ticks_at_the_ends_of_the_pool() {
    assert_eq!(get_sqrt_price_at_tick(MIN_TICK), 4_295_048_016);
    assert_eq!(get_sqrt_price_at_tick(MAX_TICK), 79_226_673_521_066_979_257_578_248_091);
}

#[test]
fn neighbouring_ticks_are_strictly_ordered() {
    for t in [-443_636i32, -100_001, -2, -1, 0, 1, 99_999, 443_635] {
        assert!(get_sqrt_price_at_tick(t) < get_sqrt_price_at_tick(t + 1));
    }
}

#[test]
fn opposite_ticks_multiply_to_one() {
    for t in [1i32, 60, 28_230, 443_636] {
        let up = get_sqrt_price_at_tick(t);
        let down = get_sqrt_price_at_tick(-t);
        assert_eq!(up, u128::MAX / down);
    }
}

#[test]
fn amount_0_delta_of_a_doubling() {
    // L * (1/1 - 1/2) = L / 2
    assert_eq!(get_amount_0_delta(Q64, 2 * Q64, 1_000), 500);
    assert_eq!(get_amount_0_delta(0, Q64, 1_000), 0);
    assert_eq!(get_amount_0_delta(2 * Q64, Q64, 1_000), 0);
    // Beyond 64 bits the amount saturates.
    assert_eq!(get_amount_0_delta(1, 2, u64::MAX as u128), u64::MAX);
}

#[test]
fn amount_1_delta_saturates() {
    assert_eq!(get_amount_1_delta(0, u128::MAX, u128::MAX), u64::MAX);
    assert_eq!(get_amount_1_delta(2 * Q64, Q64, 5), 0);
}

#[test]
fn splitting_a_range_loses_a_unit_at_most() {
    for (lo, mid, hi, liquidity) in [
        (Q64, Q64 + 7, 2 * Q64, 999_983u128),
        (Q64 / 3, Q64, 5 * Q64, 1_000_003),
        (Q64, Q64 + (1 << 60), Q64 + (1 << 61), 77),
    ] {
        let whole = get_amount_0_delta(lo, hi, liquidity);
        let parts = get_amount_0_delta(lo, mid, liquidity) + get_amount_0_delta(mid, hi, liquidity);
        assert!(parts <= whole && whole <= parts + 1);
        let whole = get_amount_1_delta(lo, hi, liquidity);
        let parts = get_amount_1_delta(lo, mid, liquidity) + get_amount_1_delta(mid, hi, liquidity);
        assert!(parts <= whole && whole <= parts + 1);
    }
}

#[test]
fn position_amounts_by_side() {
    let sqrt = get_sqrt_price_at_tick(0);
    // Below the range all is token0, above it all is token1.
    let below = calculate_position_amounts(get_sqrt_price_at_tick(-200), -200, -100, 100, 1_000_000, true);
    assert!(below.0 > 0 && below.1 == 0);
    let above = calculate_position_amounts(get_sqrt_price_at_tick(200), 200, -100, 100, 1_000_000, true);
    assert!(above.0 == 0 && above.1 > 0);
    let inside = calculate_position_amounts(sqrt, 0, -100, 100, 1_000_000, true);
    assert_eq!(inside, (4_987, 4_987));
    // A vault that names the tokens the other way round sees them swapped.
    let swapped = calculate_position_amounts(get_sqrt_price_at_tick(200), 200, -100, 100, 1_000_000, false);
    assert_eq!(swapped, (above.1, 0));
    assert_eq!(calculate_position_amounts(sqrt, 0, -100, 100, 0, true), (0, 0));
}

#[test]
fn position_amounts_can_be_out_of_reach() {
    assert!(can_calculate_position_amounts(Q64, 0, -100, 100, 1_000_000));
    assert!(!can_calculate_position_amounts(Q64, 0, -100, MAX_TICK, u128::MAX));
}

#[test]
fn pool_fields_are_read_at_their_offsets() {
    let mut data = vec![0u8; 300];
    for i in 0..32 {
        data[73 + i] = i as u8 + 1;
    }
    data[253..269].copy_from_slice(&(3u128 << 64).to_le_bytes());
    data[269..273].copy_from_slice(&(-77i32).to_le_bytes());
    let mut bytes = [0u8; 32];
    for (i, b) in bytes.iter_mut().enumerate() {
        *b = i as u8 + 1;
    }
    assert_eq!(read_pool_token_mint_0(&data), Some(Pubkey { bytes }));
    assert_eq!(read_pool_sqrt_price_x64(&data), Some(3u128 << 64));
    assert_eq!(read_pool_tick_current(&data), Some(-77));
    assert_eq!(read_pool_token_mint_0(&data[..104]), None);
    assert_eq!(read_pool_sqrt_price_x64(&data[..268]), None);
    assert_eq!(read_pool_tick_current(&data[..272]), None);
}

#[test]
fn numbers_are_read_and_written_little_endian() {
    let mut out: Vec<u8> = vec![9];
    push_le(&mut out, 0x0102_0304_0506_0708, 8);
    assert_eq!(out, vec![9, 8, 7, 6, 5, 4, 3, 2, 1]);
    assert_eq!(read_u64(&out, 1), 0x0102_0304_0506_0708);
    assert_eq!(read_u32(&out, 1), 0x0506_0708);
    assert_eq!(read_le(&out, 0, 3), 0x07_0809);
    assert_eq!(read_i32(&(-5i32).to_le_bytes(), 0), -5);
    assert_eq!(read_i64(&i64::MIN.to_le_bytes(), 0), i64::MIN);
}

#[test]
fn prices_at_other_scales() {
    // 4 token1 per token0, 9 decimals.
    assert_eq!(sqrt_price_to_price(2 * Q64, true, 9, 6), Some(4_000_000_000));
    // Too large for 64 bits.
    assert_eq!(sqrt_price_to_price(1 << 95, true, 18, 6), None);
    // A price so large that its square overflows gives none.
    assert_eq!(sqrt_price_to_price(u128::MAX, true, 6, 6), None);
    // Beyond 128 bits the dividend of the reciprocal is still exact.
    assert_eq!(sqrt_price_to_price(0xffff_ffff_ffff_ffff_0000_0000, false, 20, 6), Some(5));
    assert_eq!(sqrt_price_to_price(Q64, false, 20, 6), None);
    assert_eq!(sqrt_price_to_price(1 << 95, false, 38, 6), None);
    assert_eq!(sqrt_price_to_price(1, false, 255, 6), None);
    assert!(can_price(Q64, 38) && !can_price(Q64, 39));
    assert!(can_price(1, 39) && can_price(u128::MAX, 39));
}

#[test]
fn direct_and_inverted_prices_bracket_the_scale() {
    let scale = 1_000_000u128;
    for sqrt in [Q64, 2 * Q64, Q64 + (1 << 63), 3 * Q64 + 12_345] {
        let direct = sqrt_price_to_price(sqrt, true, 6, 6).unwrap() as u128;
        let inverted = sqrt_price_to_price(sqrt, false, 6, 6).unwrap() as u128;
        assert!(direct * inverted <= scale * scale);
        assert!(scale * scale < (direct + 1) * (inverted + 1));
    }
}

#[test]
fn swap_floor_is_ninety_nine_percent() {
    assert_eq!(swap_min_out_floor(Q64, 1_000_000, true), Some(990_000));
    assert_eq!(swap_min_out_floor(2 * Q64, 1_000_000, true), Some(3_960_000));
    assert_eq!(swap_min_out_floor(2 * Q64, 1_000_000, false), Some(247_500));
    assert_eq!(swap_min_out_floor(1, 1_000_000, false), None);
    assert_eq!(swap_min_out_floor(u128::MAX, 1, true), None);
    assert_eq!(output_at(2 * Q64, 1_000_000, true), Some(4_000_000));
    assert_eq!(output_at(2 * Q64, 1_000_000, false), Some(250_000));
    assert_eq!(output_at(1, 5, false), None);
}

#[test]
fn values_in_token1() {
    assert_eq!(value_in_token1(2 * Q64, 1_000, true), Some(4_000));
    assert_eq!(value_in_token1(2 * Q64, 1_000, false), Some(1_000));
    assert_eq!(value_in_token1(u128::MAX, 1_000, true), None);
    assert_eq!(value_in_token1(u128::MAX, 1_000, false), Some(1_000));
}

#[test]
fn deviation_saturates() {
    assert!(sqrt_within_deviation(u128::MAX, u128::MAX / 2, 10_000));
    assert!(sqrt_within_deviation(0, 0, 0));
    assert!(!sqrt_within_deviation(1, 0, 10_000));
}

#[test]
fn range_errors_are_told_apart() {
    assert_eq!(validate_position_range(5, 5, 5, 1), Err(VaultError::InvalidTickRange));
    assert_eq!(validate_position_range(6, 5, 5, 1), Err(VaultError::InvalidTickRange));
    assert_eq!(validate_position_range(-2, 2, 0, 1), Err(VaultError::InvalidPositionRange));
    // 20_000 spacings are the most.
    assert_eq!(validate_position_range(-10_000, 10_000, 0, 1), Ok(()));
    assert_eq!(
        validate_position_range(-10_000, 10_001, 0, 1),
        Err(VaultError::InvalidPositionRange)
    );
    // A fifth of the width on a side is enough, and one tick less is not.
    assert_eq!(validate_position_range(0, 1_000, 200, 1), Ok(()));
    assert_eq!(validate_position_range(0, 1_000, 199, 1), Err(VaultError::InvalidPositionRange));
    // The percentage is exact: 1 is less than a fifth of 9, and 2 is not.
    assert_eq!(validate_position_range(0, 9, 1, 1), Err(VaultError::InvalidPositionRange));
    assert_eq!(validate_position_range(0, 9, 8, 1), Err(VaultError::InvalidPositionRange));
    assert_eq!(validate_position_range(0, 9, 2, 1), Ok(()));
    assert_eq!(validate_position_range(0, 9, 7, 1), Ok(()));
}

#[test]
fn worth_leaves_the_fees_out() {
    let mut v = Vault::default();
    v.token0_decimals = 9;
    v.treasury_token0 = 3_000_000_000;
    v.treasury_token1 = 500;
    v.position_token0 = 1_000_000_000;
    v.position_token1 = 100;
    v.accumulated_protocol_fees_token0 = 2_000_000_000;
    v.accumulated_protocol_fees_token1 = 50;
    // 2 whole token0 at 150, and 550 of token1.
    assert_eq!(v.calculate_tvl(150), 850);
    assert_eq!(v.calculate_tvl_with_position(150, 0, 0), 150 + 450);
    assert_eq!(v.user_treasury_token0(), 1_000_000_000);
    assert_eq!(v.user_treasury_token1(), 450);
    assert_eq!(v.token0_to_token1(500_000_000, 150), 75);
    // What does not fit in 64 bits counts as nothing.
    v.token0_decimals = 0;
    assert_eq!(v.token0_to_token1(u64::MAX, 2), 0);
}

#[test]
fn withdrawal_value_is_pro_rata() {
    let mut v = Vault::default();
    assert_eq!(v.calculate_withdrawal_value(10, 1_000), Ok(0));
    v.total_shares = 3;
    assert_eq!(v.calculate_withdrawal_value(2, 1_000), Ok(666));
    assert_eq!(v.calculate_withdrawal_value(9, u64::MAX), Err(VaultError::MathOverflow));
}

#[test]
fn shares_start_afresh_or_in_proportion() {
    assert_eq!(shares_for_deposit(500, 0, 0), 500);
    assert_eq!(shares_for_deposit(500, DEAD_SHARES, 1_000_000), 500);
    assert_eq!(shares_for_deposit(500, 2_000, 0), 500);
    assert_eq!(shares_for_deposit(500, 2_000, 1_000), 1_000);
    assert_eq!(shares_for_deposit(1, 2_000, 3_000), 0);
}

#[test]
fn deposits_neither_dilute_nor_gain() {
    for (value, total, tvl) in [(100u64, 5_000u64, 7_777u64), (1, 9_999, 3), (123_456, 1_001, 1_000_003)] {
        let shares = shares_for_deposit(value, total, tvl);
        let (v, n, t, s) = (value as u128, total as u128, tvl as u128, shares as u128);
        assert!(t * (n + s) <= (t + v) * n);
        assert!((t + v) * s / (n + s) <= v);
    }
}

#[test]
fn operators_are_the_operator_and_the_admin() {
    let mut v = Vault::default();
    v.admin = Pubkey { bytes: [1; 32] };
    v.operator = Pubkey { bytes: [2; 32] };
    assert!(v.is_operator(&Pubkey { bytes: [1; 32] }));
    assert!(v.is_operator(&Pubkey { bytes: [2; 32] }));
    assert!(!v.is_operator(&Pubkey { bytes: [3; 32] }));
}

#[test]
fn account_lengths_and_wrapped_sol() {
    assert_eq!(Vault::LEN, 489);
    assert_eq!(UserDeposit::LEN, 121);
    assert_eq!(UserDeposit::default().created_at, 0);
    let wsol: anchor_lang::prelude::Pubkey =
        "So11111111111111111111111111111111111111112".parse().unwrap();
    assert_eq!(WSOL_MINT, wsol.to_bytes());
}

#[test]
fn seeds_spell_their_names() {
    assert_eq!(&seeds::VAULT, b"vault");
    assert_eq!(&seeds::TOKEN0_TREASURY, b"token0_treasury");
    assert_eq!(&seeds::TOKEN1_TREASURY, b"token1_treasury");
    assert_eq!(&seeds::SHARE_MINT, b"share_mint");
    assert_eq!(&seeds::USER_DEPOSIT, b"user_deposit");
    assert_eq!(&seeds::POSITION_NFT, b"position_nft");
    assert_eq!(&seeds::POSITION, b"position");
}
