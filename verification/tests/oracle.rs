//! The oracle and the guard against manipulated prices.

use vault::errors::VaultError;
use vault::oracle::{check_feed, oracle_window_fits};
use vault::pubkey::Pubkey;
use vault::state::{
    check_price_not_manipulated, get_sqrt_price_at_tick, observation_pool_id, reference_sqrt_price,
    MAX_TICK, MIN_TICK,
};

const POOL: Pubkey = Pubkey { bytes: [7; 32] };
const CLMM: Pubkey = Pubkey { bytes: [8; 32] };

fn observations(slots: &[(usize, u32, i64)]) -> Vec<u8> {
    let mut data = vec![0u8; 51 + 100 * 44];
    data[8] = 1;
    data[19..51].copy_from_slice(&POOL.bytes);
    for (i, time, ticks) in slots {
        let base = 51 + i * 44;
        data[base..base + 4].copy_from_slice(&time.to_le_bytes());
        data[base + 4..base + 12].copy_from_slice(&ticks.to_le_bytes());
    }
    data
}

#[test]
fn the_pool_is_named() {
    let data = observations(&[]);
    assert_eq!(observation_pool_id(&data), Some(POOL));
    assert_eq!(observation_pool_id(&data[..50]), None);
}

#[test]
fn reference_is_the_average_tick() {
    // 50 ticks per second over 40 seconds.
    let data = observations(&[(3, 1_000, 10_000), (4, 1_040, 12_000)]);
    assert_eq!(reference_sqrt_price(&data), Some(get_sqrt_price_at_tick(50)));
    // Rounded toward zero on both sides.
    let data = observations(&[(3, 1_000, 0), (4, 1_040, 39)]);
    assert_eq!(reference_sqrt_price(&data), Some(get_sqrt_price_at_tick(0)));
    let data = observations(&[(3, 1_000, 0), (4, 1_040, -79)]);
    assert_eq!(reference_sqrt_price(&data), Some(get_sqrt_price_at_tick(-1)));
}

#[test]
fn the_window_starts_at_the_latest_old_enough() {
    let data = observations(&[(0, 900, 0), (1, 970, 7_000), (2, 971, 0), (3, 1_000, 10_000)]);
    // 970 is 30 seconds before 1000, and 971 is not.
    assert_eq!(reference_sqrt_price(&data), Some(get_sqrt_price_at_tick(100)));
}

#[test]
fn no_window_no_reference() {
    assert_eq!(reference_sqrt_price(&[]), None);
    assert_eq!(reference_sqrt_price(&observations(&[])), None);
    assert_eq!(reference_sqrt_price(&observations(&[(0, 1_000, 5)])), None);
    assert_eq!(reference_sqrt_price(&observations(&[(0, 1_000, 5), (1, 1_029, 9)])), None);
    let mut data = observations(&[(0, 1_000, 5), (1, 1_030, 9)]);
    assert!(reference_sqrt_price(&data).is_some());
    data[8] = 0;
    assert_eq!(reference_sqrt_price(&data), None);
}

#[test]
fn the_average_is_kept_within_the_pool() {
    let data = observations(&[(0, 1_000, 0), (1, 1_030, i64::MAX)]);
    assert_eq!(reference_sqrt_price(&data), Some(get_sqrt_price_at_tick(MAX_TICK)));
    let data = observations(&[(0, 1_000, 0), (1, 1_030, i64::MIN)]);
    assert_eq!(reference_sqrt_price(&data), Some(get_sqrt_price_at_tick(MIN_TICK)));
}

#[test]
fn a_window_can_overflow() {
    let data = observations(&[(0, 1_000, i64::MIN), (1, 1_030, i64::MAX)]);
    assert!(!oracle_window_fits(&data));
    assert!(oracle_window_fits(&observations(&[(0, 1_000, 0), (1, 1_030, 5)])));
    assert!(oracle_window_fits(&[]));
}

#[test]
fn a_one_second_spike_is_diluted() {
    // Tick 0 for 59 seconds, then tick 6000 for one.
    let honest = observations(&[(0, 1_000, 0), (1, 1_060, 0)]);
    let spiked = observations(&[(0, 1_000, 0), (1, 1_060, 6_000)]);
    assert_eq!(reference_sqrt_price(&honest), Some(get_sqrt_price_at_tick(0)));
    assert_eq!(reference_sqrt_price(&spiked), Some(get_sqrt_price_at_tick(100)));
}

#[test]
fn neither_order_nor_young_observations_count() {
    let in_order = observations(&[(0, 900, 1), (1, 970, 7_000), (2, 1_000, 10_000)]);
    let shuffled = observations(&[(9, 1_000, 10_000), (40, 900, 1), (99, 970, 7_000)]);
    let young = observations(&[(0, 1_000, 10_000), (1, 971, -5), (2, 999, 5), (3, 970, 7_000)]);
    let expected = Some(get_sqrt_price_at_tick(100));
    assert_eq!(reference_sqrt_price(&in_order), expected);
    assert_eq!(reference_sqrt_price(&shuffled), expected);
    assert_eq!(reference_sqrt_price(&young), expected);
}

#[test]
fn spot_is_held_against_the_reference() {
    let data = observations(&[(0, 1_000, 0), (1, 1_060, 0)]);
    let one = 1u128 << 64;
    assert_eq!(check_price_not_manipulated(one, &data, true, 250), Ok(()));
    assert_eq!(check_price_not_manipulated(one + one / 50, &data, true, 250), Ok(()));
    assert_eq!(
        check_price_not_manipulated(one + one / 25, &data, true, 250),
        Err(VaultError::PriceManipulationDetected)
    );
    assert_eq!(check_price_not_manipulated(one + one / 25, &data, true, 500), Ok(()));
    assert_eq!(
        check_price_not_manipulated(one, &[], true, 250),
        Err(VaultError::OracleUnavailable)
    );
    assert_eq!(check_price_not_manipulated(one, &[], false, 250), Ok(()));
}

#[test]
fn the_feed_must_be_the_pools() {
    let data = observations(&[(0, 1_000, 0), (1, 1_060, 0)]);
    let one = 1u128 << 64;
    assert_eq!(check_feed(&POOL, &CLMM, &CLMM, one, &data, true, 250), Ok(()));
    assert_eq!(
        check_feed(&POOL, &POOL, &CLMM, one, &data, true, 250),
        Err(VaultError::InvalidPriceFeed)
    );
    assert_eq!(
        check_feed(&CLMM, &CLMM, &CLMM, one, &data, true, 250),
        Err(VaultError::InvalidPriceFeed)
    );
    assert_eq!(
        check_feed(&POOL, &CLMM, &CLMM, one, &data[..40], true, 250),
        Err(VaultError::InvalidPriceFeed)
    );
}
