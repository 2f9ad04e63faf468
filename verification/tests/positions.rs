//! Opening, adding to and recording a position, and swapping.

use vault::accounts::{Balances, PersonalPosition, PoolPrice, PositionAccounts, TokenAccount};
use vault::errors::VaultError;
use vault::instructions::delegation::{approved_amount, first_step, next_step, Grants, Step};
use vault::instructions::open_position::{OpenPosition, OpenRequest};
use vault::instructions::swap_in_treasury::{SwapDirection, SwapInTreasury, SwapPlan};
use vault::instructions::sync_position_value::SyncPositionValue;
use vault::instructions::{increase_liquidity, open_position, swap_in_treasury, sync_position_value};
use vault::pubkey::Pubkey;
use vault::state::{calculate_position_amounts, get_sqrt_price_at_tick, Vault};

fn key(n: u8) -> Pubkey {
    Pubkey { bytes: [n; 32] }
}

fn token(address: u8, mint: u8, amount: u64) -> TokenAccount {
    TokenAccount { key: key(address), mint: key(mint), owner: key(50), amount }
}

const ADMIN: u8 = 1;
const OPERATOR: u8 = 2;
const MINT0: u8 = 10;
const MINT1: u8 = 11;
const POOL: u8 = 12;
const POSITION: u8 = 13;
const Q64: u128 = 1 << 64;

fn vault() -> Vault {
    let mut v = Vault::default();
    v.admin = key(ADMIN);
    v.operator = key(OPERATOR);
    v.token0_mint = key(MINT0);
    v.token1_mint = key(MINT1);
    v.pool_id = key(POOL);
    v
}

fn open_accounts() -> OpenPosition {
    OpenPosition {
        operator: key(OPERATOR),
        token0_treasury: token(21, MINT0, 1_000),
        token1_treasury: token(22, MINT1, 2_000),
        pool_state: key(POOL),
        tick_current: 0,
        tick_spacing: 1,
    }
}

fn request() -> OpenRequest {
    OpenRequest {
        tick_lower_index: -100,
        tick_upper_index: 100,
        liquidity: 0,
        amount_0_max: 1_000,
        amount_1_max: 2_000,
        slippage_bps: 500,
    }
}

#[test]
fn opening_records_the_position_and_ends_the_rebalance() {
    let mut v = vault();
    v.is_rebalancing = true;
    v.rebalance_started_at = 77;
    assert_eq!(
        open_position::begin(&v, &open_accounts(), &request()),
        Ok(Grants { token0: true, token1: true })
    );
    let before = Balances { token0: 1_000, token1: 2_000 };
    let after = Balances { token0: 100, token1: 2_000 };
    let e = open_position::finish(&mut v, &key(POSITION), &request(), 555, before, after);
    assert_eq!((e.token0_used, e.token1_used, e.liquidity), (900, 0, 555));
    assert_eq!((e.tick_lower, e.tick_upper), (-100, 100));
    assert_eq!((e.pool_id, e.position_mint), (key(POOL), key(POSITION)));
    assert!(v.has_active_position && !v.is_rebalancing);
    assert_eq!(v.rebalance_started_at, 0);
    assert_eq!((v.position_token0, v.position_token1), (900, 0));
    assert_eq!((v.treasury_token0, v.treasury_token1), (100, 2_000));
    assert_eq!((v.position_tick_lower, v.position_tick_upper), (-100, 100));
    assert_eq!(v.position_liquidity, 555);
    // No second one while there is one.
    assert_eq!(
        open_position::begin(&v, &open_accounts(), &request()),
        Err(VaultError::PositionAlreadyExists)
    );
}

#[test]
fn opening_is_refused() {
    let accounts_refused = |change: fn(&mut OpenPosition)| {
        let mut a = open_accounts();
        change(&mut a);
        open_position::begin(&vault(), &a, &request()).unwrap_err()
    };
    assert_eq!(accounts_refused(|a| a.operator = key(9)), VaultError::Unauthorized);
    assert_eq!(accounts_refused(|a| a.pool_state = key(9)), VaultError::InvalidPriceFeed);
    assert_eq!(accounts_refused(|a| a.tick_current = 99), VaultError::InvalidPositionRange);
    assert_eq!(
        accounts_refused(|a| a.token0_treasury.amount = 999),
        VaultError::InsufficientTreasuryBalance
    );
    assert_eq!(
        accounts_refused(|a| a.token1_treasury.amount = 1_999),
        VaultError::InsufficientTreasuryBalance
    );
    let request_refused = |change: fn(&mut OpenRequest)| {
        let mut r = request();
        change(&mut r);
        open_position::begin(&vault(), &open_accounts(), &r).unwrap_err()
    };
    assert_eq!(request_refused(|r| r.tick_upper_index = -100), VaultError::InvalidTickRange);
    assert_eq!(request_refused(|r| r.amount_0_max = 0), VaultError::InvalidAmount);
    assert_eq!(request_refused(|r| r.slippage_bps = 501), VaultError::SlippageTooHigh);
    assert_eq!(request_refused(|r| r.tick_upper_index = -98), VaultError::InvalidPositionRange);
}

fn position() -> PositionAccounts {
    PositionAccounts {
        pool_state: key(POOL),
        position_nft_account: TokenAccount {
            key: key(30),
            mint: key(POSITION),
            owner: key(50),
            amount: 1,
        },
        personal_position_pool_id: key(POOL),
    }
}

fn increase_accounts() -> increase_liquidity::IncreaseLiquidity {
    increase_liquidity::IncreaseLiquidity {
        admin: key(ADMIN),
        token0_treasury: token(21, MINT0, 1_000),
        token1_treasury: token(22, MINT1, 2_000),
        position: position(),
    }
}

#[test]
fn increasing_adds_to_the_position() {
    let mut v = vault();
    v.has_active_position = true;
    v.position_mint = key(POSITION);
    v.position_token0 = 10;
    v.position_token1 = u64::MAX;
    let grants = increase_liquidity::begin(&v, &increase_accounts(), 5, 0, 7, 0).unwrap();
    assert_eq!(grants, Grants { token0: false, token1: true });
    let before = Balances { token0: 1_000, token1: 2_000 };
    let after = Balances { token0: 990, token1: 1_993 };
    let e = increase_liquidity::finish(&mut v, 600, before, after);
    assert_eq!((e.token0_added, e.token1_added, e.new_liquidity), (10, 7, 600));
    assert_eq!((v.position_token0, v.position_token1), (20, u64::MAX));
    assert_eq!((v.treasury_token0, v.treasury_token1), (990, 1_993));
    assert_eq!(v.position_liquidity, 600);
}

#[test]
fn increasing_is_refused() {
    let mut v = vault();
    v.position_mint = key(POSITION);
    let begin = increase_liquidity::begin;
    let a = increase_accounts();
    assert_eq!(begin(&v, &a, 1, 1, 1, 0), Err(VaultError::NoActivePosition));
    v.has_active_position = true;
    let mut op = a;
    op.admin = key(OPERATOR);
    assert_eq!(begin(&v, &op, 1, 1, 1, 0), Err(VaultError::Unauthorized));
    let mut nft = a;
    nft.position.position_nft_account.mint = key(9);
    assert_eq!(begin(&v, &nft, 1, 1, 1, 0), Err(VaultError::InvalidPosition));
    assert_eq!(begin(&v, &a, 0, 0, 1, 0), Err(VaultError::InvalidAmount));
    assert_eq!(begin(&v, &a, 1, 1, 1, 501), Err(VaultError::SlippageTooHigh));
    assert_eq!(begin(&v, &a, 1, 1_001, 1, 0), Err(VaultError::InsufficientTreasuryBalance));
    assert_eq!(begin(&v, &a, 1, 1, 2_001, 0), Err(VaultError::InsufficientTreasuryBalance));
}

/// Runs the steps with the given answer of the pool, and gives the steps taken.
fn run(grants: Grants, answer: bool) -> Vec<Step> {
    let mut steps = Vec::new();
    let mut step = first_step(grants);
    while !matches!(step, Step::Done { .. } | Step::Abort) {
        steps.push(step);
        let ok = if step == Step::AddLiquidity { answer } else { true };
        step = next_step(grants, step, ok);
    }
    steps.push(step);
    steps
}

#[test]
fn delegates_are_revoked_whatever_the_pool_answers() {
    let both = Grants { token0: true, token1: true };
    for answer in [true, false] {
        assert_eq!(
            run(both, answer),
            vec![
                Step::ApproveToken0,
                Step::ApproveToken1,
                Step::AddLiquidity,
                Step::RevokeToken0 { added: answer },
                Step::RevokeToken1 { added: answer },
                Step::Done { added: answer },
            ]
        );
    }
    let one = Grants { token0: false, token1: true };
    assert_eq!(
        run(one, false),
        vec![
            Step::ApproveToken1,
            Step::AddLiquidity,
            Step::RevokeToken1 { added: false },
            Step::Done { added: false },
        ]
    );
    let none = Grants { token0: false, token1: false };
    assert_eq!(run(none, true), vec![Step::AddLiquidity, Step::Done { added: true }]);
}

#[test]
fn approvals_are_for_what_may_be_spent() {
    assert_eq!(approved_amount(Step::ApproveToken0, 5, 7), 5);
    assert_eq!(approved_amount(Step::ApproveToken1, 5, 7), 7);
    for step in [
        Step::AddLiquidity,
        Step::RevokeToken0 { added: true },
        Step::RevokeToken1 { added: false },
        Step::Done { added: true },
        Step::Abort,
    ] {
        assert_eq!(approved_amount(step, 5, 7), 0);
    }
}

#[test]
fn a_failed_approval_or_revocation_aborts() {
    let both = Grants { token0: true, token1: true };
    for step in [
        Step::ApproveToken0,
        Step::ApproveToken1,
        Step::RevokeToken0 { added: true },
        Step::RevokeToken1 { added: true },
        Step::Abort,
    ] {
        assert_eq!(next_step(both, step, false), Step::Abort);
    }
    assert_eq!(next_step(both, Step::Done { added: true }, false), Step::Done { added: true });
}

/// The address that the pool program derives for a position.
fn record_of(mint: Pubkey, program: Pubkey) -> Pubkey {
    let program = anchor_lang::prelude::Pubkey::new_from_array(program.bytes);
    let (found, _) = anchor_lang::prelude::Pubkey::find_program_address(
        &[b"position", &mint.bytes],
        &program,
    );
    Pubkey { bytes: found.to_bytes() }
}

#[test]
fn the_record_of_the_position_is_derived() {
    let clmm = key(8);
    let mut v = vault();
    v.position_mint = key(POSITION);
    let accounts = SyncPositionValue {
        pool_state: key(POOL),
        personal_position: record_of(key(POSITION), clmm),
    };
    assert_eq!(
        sync_position_value::begin(&v, &accounts, &clmm),
        Err(VaultError::NoActivePosition)
    );
    v.has_active_position = true;
    assert_eq!(sync_position_value::begin(&v, &accounts, &clmm), Ok(()));
    let mut other = accounts;
    other.personal_position = key(POSITION);
    assert_eq!(
        sync_position_value::begin(&v, &other, &clmm),
        Err(VaultError::InvalidPosition)
    );
    assert_eq!(
        sync_position_value::begin(&v, &accounts, &key(9)),
        Err(VaultError::InvalidPosition)
    );
    let mut pool = accounts;
    pool.pool_state = key(9);
    assert_eq!(
        sync_position_value::begin(&v, &pool, &clmm),
        Err(VaultError::InvalidPriceFeed)
    );
}

#[test]
fn syncing_records_the_real_amounts() {
    let mut v = vault();
    v.position_token0 = 1;
    v.position_token1 = 2;
    let position = PersonalPosition {
        tick_lower_index: -100,
        tick_upper_index: 100,
        liquidity: 1_000_000,
    };
    let pool = PoolPrice {
        token_mint_0: key(MINT0),
        sqrt_price_x64: get_sqrt_price_at_tick(40),
        tick_current: 40,
    };
    sync_position_value::sync_handler(&mut v, &position, &pool);
    let expected =
        calculate_position_amounts(pool.sqrt_price_x64, 40, -100, 100, 1_000_000, true);
    assert_eq!((v.position_token0, v.position_token1), expected);
    assert!(expected.0 < expected.1);
    assert_eq!(v.position_liquidity, 1_000_000);
    let synced = (v.position_token0, v.position_token1);
    sync_position_value::sync_handler(&mut v, &position, &pool);
    assert_eq!((v.position_token0, v.position_token1), synced);
    // In a pool that lists the tokens the other way round they swap.
    let mirrored = PoolPrice { token_mint_0: key(MINT1), ..pool };
    sync_position_value::sync_handler(&mut v, &position, &mirrored);
    assert_eq!((v.position_token0, v.position_token1), (expected.1, expected.0));
    let empty = PersonalPosition { liquidity: 0, ..position };
    sync_position_value::sync_handler(&mut v, &empty, &pool);
    assert_eq!((v.position_token0, v.position_token1, v.position_liquidity), (0, 0, 0));
}

fn observations() -> Vec<u8> {
    let mut data = vec![0u8; 51 + 100 * 44];
    data[8] = 1;
    data[19..51].copy_from_slice(&key(POOL).bytes);
    data[51..55].copy_from_slice(&1_000u32.to_le_bytes());
    data[95..99].copy_from_slice(&1_060u32.to_le_bytes());
    data
}

fn swap_accounts() -> SwapInTreasury {
    SwapInTreasury {
        admin: key(OPERATOR),
        token0_treasury: token(21, MINT0, 5_000),
        token1_treasury: token(22, MINT1, 5_000),
        amm_config: key(40),
        pool_state: key(POOL),
        input_vault: token(41, MINT0, 0),
        output_vault: token(42, MINT1, 0),
        observation_state: key(43),
        pool_amm_config: key(40),
        pool_observation_key: key(43),
        pool_token_vault_0: key(41),
        pool_token_vault_1: key(42),
        pool_token_mint_0: key(MINT0),
    }
}

fn swap_vault() -> Vault {
    let mut v = vault();
    v.treasury_token0 = 5_000;
    v.treasury_token1 = 5_000;
    v
}

const SELL0: SwapDirection = SwapDirection::Token0ToToken1;
const SELL1: SwapDirection = SwapDirection::Token1ToToken0;

#[test]
fn a_swap_opens_a_window() {
    let mut v = swap_vault();
    let plan =
        swap_in_treasury::begin(&v, &swap_accounts(), 1_000, 990, SELL0, &observations(), 10_000)
            .unwrap();
    assert_eq!(plan, SwapPlan { window_start: 10_000, window_volume: 1_000 });
    let left = Balances { token0: 4_000, token1: 5_995 };
    let e = swap_in_treasury::finish(&mut v, &plan, 1_000, SELL0, left, 10_000);
    assert_eq!(e.direction, "TOKEN0->TOKEN1");
    assert_eq!((e.amount_in, e.treasury_token0, e.treasury_token1), (1_000, 4_000, 5_995));
    assert_eq!((v.treasury_token0, v.treasury_token1), (4_000, 5_995));
    assert_eq!((v.swap_window_start, v.swap_volume_in_window), (10_000, 1_000));
    assert_eq!(v.last_swap_at, 10_000);
    // The other way round, within the window: the volumes add up.
    let mut back = swap_accounts();
    back.input_vault = token(42, MINT1, 0);
    back.output_vault = token(41, MINT0, 0);
    let plan =
        swap_in_treasury::begin(&v, &back, 2_000, 1_980, SELL1, &observations(), 10_060).unwrap();
    assert_eq!(plan, SwapPlan { window_start: 10_000, window_volume: 3_000 });
    let e = swap_in_treasury::finish(&mut v, &plan, 2_000, SELL1, left, 10_060);
    assert_eq!(e.direction, "TOKEN1->TOKEN0");
    // After an hour the window starts anew.
    let plan =
        swap_in_treasury::begin(&v, &back, 2_000, 1_980, SELL1, &observations(), 13_600).unwrap();
    assert_eq!(plan, SwapPlan { window_start: 13_600, window_volume: 2_000 });
}

#[test]
fn steps_may_be_beyond_the_arithmetic() {
    let mut wide = request();
    assert!(open_position::can_begin(&vault(), &open_accounts(), &wide));
    wide.tick_lower_index = i32::MIN;
    assert!(!open_position::can_begin(&vault(), &open_accounts(), &wide));
    wide.slippage_bps = 501;
    assert!(open_position::can_begin(&vault(), &open_accounts(), &wide));
    assert_eq!(
        open_position::begin(&vault(), &open_accounts(), &wide),
        Err(VaultError::SlippageTooHigh)
    );
    let mut wild = observations();
    wild[55..63].copy_from_slice(&i64::MIN.to_le_bytes());
    wild[99..107].copy_from_slice(&i64::MAX.to_le_bytes());
    let (v, a) = (swap_vault(), swap_accounts());
    assert!(swap_in_treasury::can_begin(&v, &a, 1_000, 990, &observations()));
    assert!(!swap_in_treasury::can_begin(&v, &a, 1_000, 990, &wild));
    assert!(swap_in_treasury::can_begin(&v, &a, 0, 990, &wild));
}

#[test]
fn either_direction_gives_up_one_percent_at_most() {
    let v = swap_vault();
    let a = swap_accounts();
    for (amount, sqrt) in [(997u64, Q64), (4_999, Q64 + 12_345), (1_001, 2 * Q64)] {
        let p = (sqrt >> 32) * (sqrt >> 32);
        let sold = amount as u128 * p >> 64;
        let floor = vault::state::swap_min_out_floor(sqrt, amount, true).unwrap();
        assert!(swap_in_treasury::check_limits(&v, &a, amount, floor, SELL0, sqrt, 9_999).is_ok());
        assert!(100 * (sold - floor as u128) < sold + 100);
        let given = (amount as u128) << 64;
        let floor = vault::state::swap_min_out_floor(sqrt, amount, false).unwrap();
        assert!(swap_in_treasury::check_limits(&v, &a, amount, floor, SELL1, sqrt, 9_999).is_ok());
        assert!(100 * (given - floor as u128 * p) < given + 199 * p);
    }
}

#[test]
fn swaps_are_limited() {
    let obs = observations();
    let begin = |v: &Vault, amount: u64, min: u64, now: i64| {
        swap_in_treasury::begin(v, &swap_accounts(), amount, min, SELL0, &obs, now)
    };
    let mut v = swap_vault();
    assert_eq!(begin(&v, 1_000, 989, 10_000), Err(VaultError::SlippageExceeded));
    assert!(begin(&v, 1_000, 990, 10_000).is_ok());
    v.last_swap_at = 9_941;
    assert_eq!(begin(&v, 1_000, 990, 10_000), Err(VaultError::SwapCooldownActive));
    assert!(begin(&v, 1_000, 990, 10_001).is_ok());
    v.swap_window_start = 9_000;
    v.swap_volume_in_window = 9_001;
    assert_eq!(begin(&v, 1_000, 990, 10_001), Err(VaultError::SwapVolumeExceeded));
    v.swap_volume_in_window = 9_000;
    assert!(begin(&v, 1_000, 990, 10_001).is_ok());
    // The floor of an amount that no price fits overflows.
    let far = {
        let mut data = observations();
        data[99..107].copy_from_slice(&(60 * 443_636i64).to_le_bytes());
        data
    };
    let r = swap_in_treasury::begin(&v, &swap_accounts(), u64::MAX, 1, SELL0, &far, 10_001);
    assert_eq!(r, Err(VaultError::MathOverflow));
}

#[test]
fn swaps_are_refused() {
    let obs = observations();
    let refused = |change: fn(&mut SwapInTreasury)| {
        let mut a = swap_accounts();
        change(&mut a);
        swap_in_treasury::begin(&swap_vault(), &a, 1_000, 990, SELL0, &obs, 10_000).unwrap_err()
    };
    assert_eq!(refused(|a| a.admin = key(9)), VaultError::Unauthorized);
    assert_eq!(refused(|a| a.pool_state = key(9)), VaultError::InvalidPriceFeed);
    assert_eq!(refused(|a| a.observation_state = key(9)), VaultError::InvalidPriceFeed);
    assert_eq!(refused(|a| a.amm_config = key(9)), VaultError::InvalidPriceFeed);
    assert_eq!(refused(|a| a.input_vault.key = key(9)), VaultError::InvalidMint);
    assert_eq!(
        refused(|a| a.token0_treasury.amount = 999),
        VaultError::InsufficientTreasuryBalance
    );
    assert_eq!(refused(|a| a.input_vault.mint = key(MINT1)), VaultError::InvalidMint);
    assert_eq!(refused(|a| a.output_vault.mint = key(MINT0)), VaultError::InvalidMint);
    let v = swap_vault();
    let a = swap_accounts();
    let r = swap_in_treasury::begin(&v, &a, 0, 990, SELL0, &obs, 10_000);
    assert_eq!(r, Err(VaultError::InvalidAmount));
    let r = swap_in_treasury::begin(&v, &a, 1_000, 0, SELL0, &obs, 10_000);
    assert_eq!(r, Err(VaultError::InvalidAmount));
    let r = swap_in_treasury::begin(&v, &a, 1_000, 990, SELL0, &[], 10_000);
    assert_eq!(r, Err(VaultError::OracleUnavailable));
}

#[test]
fn the_limit_counts_in_the_pools_token1() {
    // Four token1 of the pool per token0 of the pool, which is the vault's token1.
    let v = swap_vault();
    let mut a = swap_accounts();
    a.pool_token_mint_0 = key(MINT1);
    let plan = swap_in_treasury::check_limits(&v, &a, 1_000, 248, SELL0, 2 * Q64, 10_000).unwrap();
    assert_eq!(plan.window_volume, 1_000);
    let plan =
        swap_in_treasury::check_limits(&v, &a, 1_000, 3_960, SELL1, 2 * Q64, 10_000).unwrap();
    assert_eq!(plan.window_volume, 4_000);
    // The treasury is worth 5000 + 4 * 5000.
    let most = swap_in_treasury::check_limits(&v, &a, 6_250, 24_750, SELL1, 2 * Q64, 10_000);
    assert_eq!(most.unwrap().window_volume, 25_000);
    let more = swap_in_treasury::check_limits(&v, &a, 6_251, 24_755, SELL1, 2 * Q64, 10_000);
    assert_eq!(more, Err(VaultError::SwapVolumeExceeded));
}
