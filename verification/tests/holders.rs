//! Deposits and withdrawals.

use vault::accounts::{
    Balances, HolderAccounts, PersonalPosition, PoolPrice, PositionAccounts, TokenAccount,
};
use vault::constants::DEAD_SHARES;
use vault::errors::VaultError;
use vault::instructions::deposit::{DepositAccounts, DepositRequest};
use vault::instructions::withdraw_from_position::WithdrawFromPosition;
use vault::instructions::{deposit, deposit_token0, deposit_token1, withdraw, withdraw_from_position};
use vault::pubkey::Pubkey;
use vault::state::{calculate_position_amounts, UserDeposit, Vault};

fn key(n: u8) -> Pubkey {
    Pubkey { bytes: [n; 32] }
}

fn token(mint: u8, owner: u8, amount: u64) -> TokenAccount {
    TokenAccount { key: key(200), mint: key(mint), owner: key(owner), amount }
}

const USER: u8 = 1;
const VAULT: u8 = 2;
const SHARES: u8 = 3;
const CLMM: u8 = 8;
const MINT0: u8 = 10;
const MINT1: u8 = 11;
const POOL: u8 = 12;
const POSITION: u8 = 13;
const Q64: u128 = 1 << 64;

fn vault() -> Vault {
    let mut v = Vault::default();
    v.share_mint = key(SHARES);
    v.token0_mint = key(MINT0);
    v.token1_mint = key(MINT1);
    v.pool_id = key(POOL);
    v.token0_decimals = 6;
    v.token1_decimals = 6;
    v
}

/// A pool account at the given square-root price, with the vault's token0 first.
fn pool_data(sqrt_price_x64: u128, tick: i32) -> Vec<u8> {
    let mut data = vec![0u8; 300];
    data[73..105].copy_from_slice(&key(MINT0).bytes);
    data[253..269].copy_from_slice(&sqrt_price_x64.to_le_bytes());
    data[269..273].copy_from_slice(&tick.to_le_bytes());
    data
}

/// Observations at tick zero over a minute.
fn observations() -> Vec<u8> {
    let mut data = vec![0u8; 51 + 100 * 44];
    data[8] = 1;
    data[19..51].copy_from_slice(&key(POOL).bytes);
    data[51..55].copy_from_slice(&1_000u32.to_le_bytes());
    data[95..99].copy_from_slice(&1_060u32.to_le_bytes());
    data
}

fn record_of(mint: Pubkey) -> Pubkey {
    let program = anchor_lang::prelude::Pubkey::new_from_array(key(CLMM).bytes);
    let (found, _) = anchor_lang::prelude::Pubkey::find_program_address(
        &[b"position", &mint.bytes],
        &program,
    );
    Pubkey { bytes: found.to_bytes() }
}

fn deposit_accounts(mint: u8) -> DepositAccounts {
    DepositAccounts {
        user: key(USER),
        vault: key(VAULT),
        user_token_account: token(mint, USER, 1_000_000),
        share_mint: key(SHARES),
        user_share_account: token(SHARES, USER, 0),
        raydium_pool: key(POOL),
        raydium_pool_owner: key(CLMM),
        observation_owner: key(CLMM),
        personal_position: key(99),
        user_deposit_bump: 254,
    }
}

fn request(amount: u64) -> DepositRequest {
    DepositRequest { amount, min_deposit: 10, min_shares_out: 0 }
}

#[test]
fn first_deposit_of_token0() {
    let mut v = vault();
    let mut record = UserDeposit::default();
    let accounts = deposit_accounts(MINT0);
    let r = request(200_000);
    // Without shares a vault does without an oracle's history.
    let mut obs = observations();
    obs[8] = 0;
    let pool = pool_data(2 * Q64, 13_863);
    let quote = deposit_token0::begin(&v, &accounts, &r, &key(CLMM), &pool, &obs).unwrap();
    assert_eq!(quote.price, 4_000_000);
    assert_eq!(quote.pool.sqrt_price_x64, 2 * Q64);
    assert_eq!(quote.pool.tick_current, 13_863);
    assert_eq!(quote.pool.token_mint_0, key(MINT0));
    assert!(!quote.needs_position);
    let e = deposit_token0::settle(&mut v, &mut record, &accounts, &r, &quote, None, 500).unwrap();
    assert_eq!((e.deposit_value, e.shares_minted, e.tvl), (800_000, 800_000, 800_000));
    assert_eq!((e.total_shares, e.token0_price, e.amount), (801_000, 4_000_000, 200_000));
    assert_eq!(v.total_shares, 800_000 + DEAD_SHARES);
    assert_eq!((v.treasury_token0, v.treasury_token1), (200_000, 0));
    assert_eq!((record.user, record.vault, record.bump), (key(USER), key(VAULT), 254));
    assert_eq!((record.created_at, record.updated_at), (500, 500));
    assert_eq!((record.shares, record.total_deposited_token0), (800_000, 200_000));
    assert_eq!(record.total_deposited_token1, 0);
}

#[test]
fn later_deposit_of_token1_mints_in_proportion() {
    let mut v = vault();
    v.total_shares = 10_000;
    v.treasury_token1 = 40_000;
    let mut record = UserDeposit::default();
    record.created_at = 7;
    record.user = key(USER);
    record.shares = 5;
    let accounts = deposit_accounts(MINT1);
    let r = request(1_000);
    let quote =
        deposit_token1::begin(&v, &accounts, &r, &key(CLMM), &pool_data(Q64, 0), &observations())
            .unwrap();
    let e = deposit_token1::settle(&mut v, &mut record, &accounts, &r, &quote, None, 500).unwrap();
    assert_eq!((e.shares_minted, e.total_shares, e.tvl, e.amount), (250, 10_250, 41_000, 1_000));
    assert_eq!((v.total_shares, v.treasury_token0, v.treasury_token1), (10_250, 0, 41_000));
    assert_eq!((record.shares, record.created_at, record.updated_at), (255, 7, 500));
    assert_eq!((record.bump, record.total_deposited_token1), (0, 1_000));
}

#[test]
fn a_deposit_counts_the_position_at_the_current_price() {
    let mut v = vault();
    v.total_shares = 1_000_000;
    v.treasury_token1 = 1_000;
    v.has_active_position = true;
    v.position_liquidity = 1;
    v.position_mint = key(POSITION);
    // Amounts recorded earlier do not count.
    v.position_token0 = 999_999_999;
    let mut accounts = deposit_accounts(MINT1);
    let r = request(10_000);
    let (pool, obs) = (pool_data(Q64, 0), observations());
    let refused = deposit_token1::begin(&v, &accounts, &r, &key(CLMM), &pool, &obs);
    assert_eq!(refused.unwrap_err(), VaultError::InvalidPosition);
    accounts.personal_position = record_of(key(POSITION));
    let quote = deposit_token1::begin(&v, &accounts, &r, &key(CLMM), &pool, &obs).unwrap();
    assert!(quote.needs_position);
    let position = PersonalPosition {
        tick_lower_index: -100,
        tick_upper_index: 100,
        liquidity: 1_000_000,
    };
    let (in0, in1) = calculate_position_amounts(Q64, 0, -100, 100, 1_000_000, true);
    let tvl = 1_000 + in0 + in1;
    assert_eq!(deposit::value_vault(&v, &quote, Some(position)), tvl);
    let mut record = UserDeposit::default();
    let e = deposit_token1::settle(&mut v, &mut record, &accounts, &r, &quote, Some(position), 5)
        .unwrap();
    assert_eq!(e.shares_minted, 10_000 * 1_000_000 / tvl);
    assert_eq!(e.tvl, tvl + 10_000);
}

#[test]
fn deposits_are_refused_before_they_are_priced() {
    let (pool, obs) = (pool_data(Q64, 0), observations());
    let refused = |change: fn(&mut Vault, &mut DepositAccounts, &mut DepositRequest)| {
        let (mut v, mut a, mut r) = (vault(), deposit_accounts(MINT0), request(1_000));
        change(&mut v, &mut a, &mut r);
        deposit_token0::begin(&v, &a, &r, &key(CLMM), &pool, &obs).unwrap_err()
    };
    let raw = VaultError::ConstraintRaw;
    assert_eq!(refused(|_, a, _| a.user_token_account.owner = key(9)), raw);
    assert_eq!(
        refused(|_, a, _| a.user_token_account.mint = key(MINT1)),
        VaultError::InvalidMint
    );
    assert_eq!(refused(|_, a, _| a.user_share_account.owner = key(9)), raw);
    assert_eq!(refused(|_, a, _| a.user_share_account.mint = key(9)), raw);
    let feed = VaultError::InvalidPriceFeed;
    assert_eq!(refused(|_, a, _| a.raydium_pool_owner = key(9)), feed);
    assert_eq!(refused(|_, a, _| a.raydium_pool = key(9)), feed);
    assert_eq!(refused(|_, a, _| a.observation_owner = key(9)), feed);
    assert_eq!(refused(|_, _, r| r.amount = 0), VaultError::InvalidAmount);
    assert_eq!(refused(|_, _, r| r.amount = 9), VaultError::DepositTooSmall);
    assert_eq!(refused(|v, _, _| v.is_paused = true), VaultError::VaultPaused);
    assert_eq!(
        refused(|v, _, _| v.is_rebalancing = true),
        VaultError::RebalancingInProgress
    );
}

#[test]
fn deposits_need_an_honest_price() {
    let mut v = vault();
    v.total_shares = 5_000;
    let a = deposit_accounts(MINT0);
    let begin = |v: &Vault, pool: &[u8], obs: &[u8]| {
        deposit_token0::begin(v, &a, &request(1_000), &key(CLMM), pool, obs).map(|q| q.price)
    };
    let obs = observations();
    assert_eq!(begin(&v, &pool_data(Q64, 0), &obs), Ok(1_000_000));
    assert_eq!(begin(&v, &pool_data(Q64, 0)[..272], &obs), Err(VaultError::InvalidPriceFeed));
    assert_eq!(begin(&v, &pool_data(1, 0), &obs), Err(VaultError::InvalidPriceFeed));
    // A price that rounds to zero is none.
    assert_eq!(begin(&v, &pool_data(1 << 50, 0), &obs), Err(VaultError::InvalidPriceFeed));
    assert_eq!(
        begin(&v, &pool_data(Q64 + Q64 / 25, 0), &obs),
        Err(VaultError::PriceManipulationDetected)
    );
    let mut blank = observations();
    blank[8] = 0;
    assert_eq!(begin(&v, &pool_data(Q64, 0), &blank), Err(VaultError::OracleUnavailable));
    v.total_shares = 0;
    assert_eq!(begin(&v, &pool_data(Q64, 0), &blank), Ok(1_000_000));
    let mut foreign = observations();
    foreign[19] = 0;
    assert_eq!(begin(&v, &pool_data(Q64, 0), &foreign), Err(VaultError::InvalidPriceFeed));
}

#[test]
fn deposits_are_refused_when_credited() {
    let a = deposit_accounts(MINT1);
    let credit = |v: &mut Vault, record: &mut UserDeposit, amount: u64, tvl: u64, min: u64| {
        let amounts = Balances { token0: 0, token1: amount };
        deposit::credit(v, record, &a, amounts, amount, tvl, min, 1)
    };
    let mut record = UserDeposit::default();
    let mut v = vault();
    assert_eq!(credit(&mut v, &mut record, 0, 0, 0), Err(VaultError::InvalidAmount));
    assert_eq!(credit(&mut v, &mut record, 99_999, 0, 0), Err(VaultError::DepositTooSmall));
    assert_eq!(credit(&mut v, &mut record, 100_000, 0, 0), Ok(100_000));
    assert_eq!(v.total_shares, 101_000);
    // Worth less than a share.
    assert_eq!(credit(&mut v, &mut record, 1, 1_000_000, 0), Err(VaultError::InvalidAmount));
    assert_eq!(
        credit(&mut v, &mut record, 1_000, 101_000, 1_001),
        Err(VaultError::SlippageExceeded)
    );
    assert_eq!(credit(&mut v, &mut record, 1_000, 101_000, 1_000), Ok(1_000));
    v.treasury_token1 = u64::MAX;
    assert_eq!(credit(&mut v, &mut record, 1_000, 102_000, 0), Err(VaultError::MathOverflow));
    v.treasury_token1 = 0;
    record.shares = u64::MAX;
    assert_eq!(credit(&mut v, &mut record, 1_000, 102_000, 0), Err(VaultError::MathOverflow));
    assert_eq!(v.treasury_token1, 0);
    assert_eq!(deposit::add_value(5, 6), 11);
    assert_eq!(deposit::add_value(u64::MAX, 6), u64::MAX);
}

#[test]
fn the_least_deposit_follows_the_decimals() {
    for (decimals, least) in [
        (0u8, 1u64),
        (2, 1),
        (3, 1),
        (6, 1_000),
        (9, 1_000_000),
        (19, 10_000_000_000_000_000),
        (20, 18_446_744_073_709_551),
        (255, 18_446_744_073_709_551),
    ] {
        assert_eq!(deposit::least_deposit(decimals), least);
    }
}

#[test]
fn the_first_depositor_loses_the_dead_shares_at_most() {
    for value in [100_000u64, 123_457, 10_000_000] {
        let mut v = vault();
        let mut record = UserDeposit::default();
        let amounts = Balances { token0: 0, token1: value };
        let a = deposit_accounts(MINT1);
        let shares = deposit::credit(&mut v, &mut record, &a, amounts, value, 0, 0, 1).unwrap();
        let back = v.calculate_withdrawal_value(shares, value).unwrap();
        assert!(back <= value && value - back <= DEAD_SHARES);
        assert!((value - back) * 100 <= value);
    }
}

fn holder(shares: u64, treasury0: u64, treasury1: u64) -> HolderAccounts {
    HolderAccounts {
        user: key(USER),
        share_mint: key(SHARES),
        user_share_account: token(SHARES, USER, shares),
        token0_treasury: token(MINT0, 50, treasury0),
        token1_treasury: token(MINT1, 50, treasury1),
        user_token0_account: token(MINT0, USER, 0),
        user_token1_account: token(MINT1, USER, 0),
    }
}

fn record(shares: u64) -> UserDeposit {
    let mut r = UserDeposit::default();
    r.user = key(USER);
    r.shares = shares;
    r.created_at = 1;
    r
}

fn funded() -> Vault {
    let mut v = vault();
    v.total_shares = 1_000;
    v.treasury_token0 = 5_100;
    v.treasury_token1 = 777;
    v.accumulated_protocol_fees_token0 = 100;
    v.accumulated_protocol_fees_token1 = 77;
    v
}

#[test]
fn a_withdrawal_pays_the_holders_part() {
    let mut v = funded();
    let mut r = record(300);
    let e = withdraw::handler(&mut v, &mut r, &holder(250, 5_100, 777), 1_250, 175, 9).unwrap();
    assert_eq!((e.shares_burned, e.token0_withdrawn, e.token1_withdrawn), (250, 1_250, 175));
    assert_eq!((e.user, e.withdrawal_value), (key(USER), 0));
    assert_eq!((v.treasury_token0, v.treasury_token1, v.total_shares), (3_850, 602, 750));
    assert_eq!((r.shares, r.updated_at), (50, 9));
    assert_eq!(v.accumulated_protocol_fees_token0, 100);
    // The others have no less per share.
    assert!(3_750 * 1_000 >= 5_000 * 750);
    // Shares that came from elsewhere are redeemed too.
    let mut r = record(0);
    let e = withdraw::handler(&mut v, &mut r, &holder(750, 3_850, 602), 0, 0, 9).unwrap();
    assert_eq!((e.token0_withdrawn, e.token1_withdrawn), (3_750, 525));
    assert_eq!((v.total_shares, r.shares), (0, 0));
}

#[test]
fn withdrawals_from_the_treasury_are_refused() {
    let refused = |change: fn(&mut Vault, &mut UserDeposit, &mut HolderAccounts)| {
        let (mut v, mut r, mut a) = (funded(), record(300), holder(250, 5_100, 777));
        change(&mut v, &mut r, &mut a);
        let before = v.treasury_token0;
        let e = withdraw::handler(&mut v, &mut r, &a, 1, 1, 5_000).unwrap_err();
        assert_eq!(v.treasury_token0, before);
        e
    };
    let raw = VaultError::ConstraintRaw;
    assert_eq!(refused(|_, r, _| r.user = key(9)), raw);
    assert_eq!(refused(|_, _, a| a.user_share_account.owner = key(9)), raw);
    assert_eq!(refused(|_, _, a| a.user_share_account.mint = key(9)), raw);
    assert_eq!(refused(|_, _, a| a.user_token0_account.owner = key(9)), raw);
    assert_eq!(refused(|_, _, a| a.user_token1_account.owner = key(9)), raw);
    let mint = VaultError::InvalidMint;
    assert_eq!(refused(|_, _, a| a.user_token0_account.mint = key(9)), mint);
    assert_eq!(refused(|_, _, a| a.user_token1_account.mint = key(9)), mint);
    assert_eq!(refused(|v, _, _| v.is_paused = true), VaultError::VaultPaused);
    assert_eq!(
        refused(|v, _, _| v.has_active_position = true),
        VaultError::PositionAlreadyExists
    );
    let shares = VaultError::InsufficientShares;
    assert_eq!(refused(|_, _, a| a.user_share_account.amount = 0), shares);
    assert_eq!(refused(|v, _, _| v.total_shares = 0), shares);
    assert_eq!(
        refused(|_, _, a| a.token0_treasury.amount = 1_349),
        VaultError::WithdrawalExceedsTreasury
    );
    assert_eq!(refused(|v, _, _| v.treasury_token1 = 77), VaultError::SlippageExceeded);
    let overflow = VaultError::MathOverflow;
    assert_eq!(
        refused(|v, _, a| {
            v.total_shares = 1;
            a.user_share_account.amount = u64::MAX;
        }),
        overflow
    );
    assert_eq!(
        refused(|v, _, a| {
            v.total_shares = 249;
            v.treasury_token0 = 5_000;
            a.token0_treasury.amount = 9_000;
            a.token1_treasury.amount = 9_000;
        }),
        overflow
    );
}

#[test]
fn a_rebalance_blocks_withdrawals_for_an_hour() {
    let try_at = |now: i64, started: i64| {
        let (mut v, mut r) = (funded(), record(300));
        v.is_rebalancing = true;
        v.rebalance_started_at = started;
        withdraw::handler(&mut v, &mut r, &holder(250, 5_100, 777), 1, 1, now).map(|_| ())
    };
    assert_eq!(try_at(4_600, 1_000), Err(VaultError::RebalancingInProgress));
    assert_eq!(try_at(4_601, 1_000), Ok(()));
    // Without a start there is no telling how long it lasts.
    assert_eq!(try_at(i64::MAX, 0), Err(VaultError::RebalancingInProgress));
    assert_eq!(try_at(i64::MIN, i64::MAX), Err(VaultError::RebalancingInProgress));
}

fn position_accounts(shares: u64) -> WithdrawFromPosition {
    WithdrawFromPosition {
        vault: key(VAULT),
        holder: holder(shares, 0, 0),
        position: PositionAccounts {
            pool_state: key(POOL),
            position_nft_account: token(POSITION, VAULT, 1),
            personal_position_pool_id: key(POOL),
        },
        observation_owner: key(CLMM),
    }
}

fn placed() -> Vault {
    let mut v = funded();
    v.has_active_position = true;
    v.position_mint = key(POSITION);
    v.position_liquidity = 10_000;
    v.position_token0 = 600;
    v.position_token1 = 700;
    v
}

#[test]
fn a_withdrawal_from_the_position() {
    let mut v = placed();
    v.is_paused = true;
    let mut r = record(300);
    let obs = observations();
    let a = position_accounts(250);
    assert_eq!(withdraw_from_position::begin(&v, &r, &a, &key(CLMM), Q64, &obs), Ok(()));
    // 200 of token0 come in as fees: 20 for the protocol.
    let before = Balances { token0: 5_100, token1: 777 };
    let after = Balances { token0: 5_300, token1: 777 };
    let ent = withdraw_from_position::entitle(&v, &position_accounts(250), before, after).unwrap();
    assert_eq!(ent.protocol_fees, Balances { token0: 120, token1: 77 });
    assert_eq!(ent.from_treasury, Balances { token0: 1_295, token1: 175 });
    assert_eq!(ent.liquidity, 2_500);
    let removed = Balances { token0: 5_450, token1: 952 };
    let pay = withdraw_from_position::settle(&ent, after, removed, 1_445, 350).unwrap();
    assert_eq!(pay.from_position, Balances { token0: 150, token1: 175 });
    assert_eq!(pay.total, Balances { token0: 1_445, token1: 350 });
    let left = Balances { token0: 4_005, token1: 602 };
    let pool = PoolPrice { token_mint_0: key(MINT0), sqrt_price_x64: 2 * Q64, tick_current: 0 };
    let e = withdraw_from_position::finish(&mut v, &mut r, &a, &ent, &pay, left, &pool, 9)
        .unwrap();
    assert_eq!((e.token0_withdrawn, e.token1_withdrawn, e.shares_burned), (1_445, 350, 250));
    assert_eq!(e.withdrawal_value, 350 + 4 * 1_445);
    assert_eq!((v.treasury_token0, v.treasury_token1), (4_005, 602));
    assert_eq!((v.position_token0, v.position_token1), (450, 525));
    assert_eq!((v.position_liquidity, v.total_shares), (7_500, 750));
    assert_eq!(v.accumulated_protocol_fees_token0, 120);
    assert_eq!((r.shares, r.updated_at), (50, 9));
    assert_eq!(withdraw_from_position::shares_to_redeem(&a), 250);
}

#[test]
fn a_payout_is_valued_in_the_pools_token1() {
    let none = Balances { token0: 0, token1: 0 };
    let paid = |token_mint_0: u8, sqrt_price_x64: u128| {
        let (mut v, mut r) = (placed(), record(300));
        let ent = withdraw_from_position::entitle(&v, &position_accounts(0), none, none).unwrap();
        let got = Balances { token0: 100, token1: 7 };
        let pay = withdraw_from_position::settle(&ent, none, got, 0, 0).unwrap();
        let pool = PoolPrice { token_mint_0: key(token_mint_0), sqrt_price_x64, tick_current: 0 };
        withdraw_from_position::finish(&mut v, &mut r, &position_accounts(0), &ent, &pay, none, &pool, 9)
            .unwrap()
            .withdrawal_value
    };
    // Four of the pool's second token for one of its first.
    assert_eq!(paid(MINT0, 2 * Q64), 400 + 7);
    // Where token0 is the pool's second it counts as it is.
    assert_eq!(paid(MINT1, 2 * Q64), 100 + 7);
    // A value that does not fit does not count.
    assert_eq!(paid(MINT0, u128::MAX), 7);
}

#[test]
fn a_deposit_may_be_beyond_the_arithmetic() {
    let mut v = vault();
    v.total_shares = 5_000;
    let a = deposit_accounts(MINT0);
    let can = |v: &Vault, a: &DepositAccounts, r: &DepositRequest, pool: &[u8], obs: &[u8]| {
        deposit::can_quote(v, a, &key(MINT0), r, &key(CLMM), pool, obs)
    };
    let (pool, obs) = (pool_data(Q64, 0), observations());
    let mut wild = observations();
    wild[55..63].copy_from_slice(&i64::MIN.to_le_bytes());
    wild[99..107].copy_from_slice(&i64::MAX.to_le_bytes());
    let r = request(1_000);
    assert!(can(&v, &a, &r, &pool, &obs));
    assert!(!can(&v, &a, &r, &pool, &wild));
    // What is refused before is refused, not out of reach.
    assert!(can(&v, &a, &request(0), &pool, &wild));
    assert!(can(&v, &a, &r, &pool_data(1, 0), &wild));
    assert!(can(&v, &a, &r, &pool[..100], &wild));
    let mut other = a;
    other.observation_owner = key(9);
    assert!(can(&v, &other, &r, &pool, &wild));
    v.token0_decimals = 39;
    assert!(!can(&v, &a, &r, &pool, &obs));
    assert!(can(&v, &a, &r, &pool_data(1, 0), &obs));
    let (v, d, p) = (placed(), record(300), position_accounts(250));
    assert!(withdraw_from_position::can_begin(&v, &d, &p, &key(CLMM), &obs));
    assert!(!withdraw_from_position::can_begin(&v, &d, &p, &key(CLMM), &wild));
    assert!(withdraw_from_position::can_begin(&funded(), &d, &p, &key(CLMM), &wild));
}

#[test]
fn withdrawals_from_the_position_are_refused() {
    let obs = observations();
    let refused = |change: fn(&mut Vault, &mut UserDeposit, &mut WithdrawFromPosition)| {
        let (mut v, mut r, mut a) = (placed(), record(300), position_accounts(250));
        change(&mut v, &mut r, &mut a);
        withdraw_from_position::begin(&v, &r, &a, &key(CLMM), Q64, &obs).unwrap_err()
    };
    assert_eq!(
        refused(|v, _, _| v.has_active_position = false),
        VaultError::NoActivePosition
    );
    assert_eq!(refused(|_, r, _| r.user = key(9)), VaultError::ConstraintRaw);
    assert_eq!(
        refused(|_, _, a| a.position.pool_state = key(9)),
        VaultError::InvalidPriceFeed
    );
    assert_eq!(
        refused(|_, _, a| a.position.position_nft_account.amount = 2),
        VaultError::ConstraintRaw
    );
    assert_eq!(
        refused(|_, _, a| a.position.position_nft_account.mint = key(9)),
        VaultError::InvalidPosition
    );
    assert_eq!(
        refused(|_, _, a| a.position.position_nft_account.owner = key(9)),
        VaultError::InvalidPosition
    );
    assert_eq!(
        refused(|_, _, a| a.position.personal_position_pool_id = key(9)),
        VaultError::ConstraintRaw
    );
    assert_eq!(refused(|_, _, a| a.observation_owner = key(9)), VaultError::InvalidPriceFeed);
    let shares = VaultError::InsufficientShares;
    assert_eq!(refused(|_, _, a| a.holder.user_share_account.amount = 0), shares);
    assert_eq!(refused(|v, _, _| v.total_shares = 0), shares);
    let (v, r, a) = (placed(), record(300), position_accounts(250));
    let begin = |price: u128, data: &[u8]| {
        withdraw_from_position::begin(&v, &r, &a, &key(CLMM), price, data)
    };
    // The band is wider than that of a deposit.
    assert_eq!(begin(Q64 + Q64 / 25, &obs), Ok(()));
    assert_eq!(begin(Q64 + Q64 / 19, &obs), Err(VaultError::PriceManipulationDetected));
    let mut blank = observations();
    blank[8] = 0;
    assert_eq!(begin(Q64, &blank), Err(VaultError::OracleUnavailable));
}

#[test]
fn withdrawals_from_the_position_can_overflow_or_slip() {
    let none = Balances { token0: 0, token1: 0 };
    let mut v = placed();
    v.accumulated_protocol_fees_token0 = u64::MAX;
    let r = withdraw_from_position::entitle(&v, &position_accounts(1), none, Balances { token0: 10, token1: 0 });
    assert_eq!(r, Err(VaultError::MathOverflow));
    let mut v = placed();
    v.total_shares = 1;
    v.accumulated_protocol_fees_token0 = 0;
    let full = Balances { token0: u64::MAX, token1: 0 };
    assert_eq!(
        withdraw_from_position::entitle(&v, &position_accounts(2), full, full),
        Err(VaultError::MathOverflow)
    );
    // A part of the liquidity that 128 bits cannot hold.
    v.position_liquidity = u128::MAX;
    assert_eq!(
        withdraw_from_position::entitle(&v, &position_accounts(2), none, none),
        Err(VaultError::MathOverflow)
    );
    // The part is exact though the product is beyond 128 bits.
    v.total_shares = 2;
    let ent = withdraw_from_position::entitle(&v, &position_accounts(2), none, none).unwrap();
    assert_eq!(ent.liquidity, u128::MAX);
    let half = withdraw_from_position::entitle(&v, &position_accounts(1), none, none).unwrap();
    assert_eq!(half.liquidity, u128::MAX / 2);
    v.total_shares = 1;
    let pay = withdraw_from_position::settle(&ent, none, Balances { token0: 5, token1: 6 }, 5, 6);
    assert!(pay.is_ok());
    let pay = withdraw_from_position::settle(&ent, none, Balances { token0: 5, token1: 6 }, 5, 7);
    assert_eq!(pay, Err(VaultError::SlippageExceeded));
    let mut rich = ent;
    rich.from_treasury.token0 = u64::MAX;
    let pay = withdraw_from_position::settle(&rich, none, Balances { token0: 1, token1: 0 }, 0, 0);
    assert_eq!(pay, Err(VaultError::MathOverflow));
    let paid = withdraw_from_position::settle(&ent, none, none, 0, 0).unwrap();
    let pool = PoolPrice { token_mint_0: key(MINT1), sqrt_price_x64: Q64, tick_current: 0 };
    let mut r = record(2);
    let e = withdraw_from_position::finish(&mut v, &mut r, &position_accounts(2), &ent, &paid, none, &pool, 9);
    assert_eq!(e.unwrap_err(), VaultError::MathOverflow);
    assert_eq!((v.total_shares, r.shares), (1, 2));
}
