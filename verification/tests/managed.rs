//! A vault that is managed by hand.

use vault::accounts::TokenAccount;
use vault::errors::VaultError;
use vault::instructions::deposit_usdc::DepositUsdc;
use vault::instructions::update_tvl::UpdateTvl;
use vault::instructions::withdraw_to_manage::ManageAccounts;
use vault::instructions::{deposit_usdc, return_from_manage, update_tvl, withdraw_to_manage};
use vault::managed::{ManagedDeposit, ManagedVault};
use vault::pubkey::Pubkey;

fn key(n: u8) -> Pubkey {
    Pubkey { bytes: [n; 32] }
}

fn token(mint: u8, owner: u8, amount: u64) -> TokenAccount {
    TokenAccount { key: key(200), mint: key(mint), owner: key(owner), amount }
}

const ADMIN: u8 = 1;
const USER: u8 = 2;
const VAULT: u8 = 3;
const USDC: u8 = 4;
const SHARES: u8 = 5;

fn vault() -> ManagedVault {
    ManagedVault {
        admin: key(ADMIN),
        is_paused: false,
        total_shares: 2_000,
        treasury_sol: 500,
        treasury_usdc: 1_000,
        tvl_usd: 4_000,
        sol_price_usd: 150_000_000,
        last_tvl_update: 1_000,
    }
}

fn record() -> ManagedDeposit {
    ManagedDeposit {
        user: Pubkey::default(),
        vault: Pubkey::default(),
        shares: 0,
        total_deposited_usdc: 0,
        created_at: 0,
        updated_at: 0,
        bump: 0,
    }
}

fn deposit_accounts() -> DepositUsdc {
    DepositUsdc {
        user: key(USER),
        vault: key(VAULT),
        user_usdc_account: token(USDC, USER, 10_000),
        usdc_mint: key(USDC),
        share_mint: key(SHARES),
        user_share_account: token(SHARES, USER, 0),
        user_deposit_bump: 253,
    }
}

#[test]
fn usdc_mints_at_the_reported_worth() {
    let (mut v, mut r) = (vault(), record());
    let e = deposit_usdc::handler(&mut v, &mut r, &deposit_accounts(), 100, 1_599).unwrap();
    assert_eq!((e.shares_minted, e.total_shares, e.tvl_usd), (50, 2_050, 4_100));
    assert_eq!((v.treasury_usdc, v.total_shares, v.tvl_usd), (1_100, 2_050, 4_100));
    assert_eq!((r.user, r.vault, r.bump), (key(USER), key(VAULT), 253));
    assert_eq!((r.shares, r.total_deposited_usdc, r.created_at), (50, 100, 1_599));
    assert_eq!(r.updated_at, 1_599);
    deposit_usdc::handler(&mut v, &mut r, &deposit_accounts(), 82, 1_500).unwrap();
    assert_eq!((r.shares, r.created_at, r.updated_at), (91, 1_599, 1_500));
}

#[test]
fn usdc_deposits_are_refused() {
    let refused = |change: fn(&mut ManagedVault, &mut ManagedDeposit, &mut DepositUsdc), amount: u64, now: i64| {
        let (mut v, mut r, mut a) = (vault(), record(), deposit_accounts());
        change(&mut v, &mut r, &mut a);
        let e = deposit_usdc::handler(&mut v, &mut r, &a, amount, now).unwrap_err();
        assert_eq!(r.updated_at, 0);
        e
    };
    let raw = VaultError::ConstraintRaw;
    assert_eq!(refused(|_, _, a| a.user_usdc_account.owner = key(9), 100, 1_100), raw);
    assert_eq!(refused(|_, _, a| a.user_usdc_account.mint = key(9), 100, 1_100), raw);
    assert_eq!(refused(|_, _, a| a.user_share_account.owner = key(9), 100, 1_100), raw);
    assert_eq!(refused(|_, _, a| a.user_share_account.mint = key(9), 100, 1_100), raw);
    assert_eq!(refused(|_, _, _| {}, 0, 1_100), VaultError::InvalidAmount);
    assert_eq!(refused(|v, _, _| v.is_paused = true, 100, 1_100), VaultError::VaultPaused);
    assert_eq!(refused(|_, _, _| {}, 100, 1_600), VaultError::StaleTvl);
    assert_eq!(refused(|_, _, _| {}, 1, 1_100), VaultError::InvalidAmount);
    let overflow = VaultError::MathOverflow;
    assert_eq!(refused(|v, _, _| v.treasury_usdc = u64::MAX, 100, 1_100), overflow);
    assert_eq!(refused(|_, r, _| r.shares = u64::MAX, 100, 1_100), overflow);
    // Without shares a report of any age will do.
    let (mut v, mut r) = (vault(), record());
    v.total_shares = 0;
    assert!(deposit_usdc::handler(&mut v, &mut r, &deposit_accounts(), 100, 9_999).is_ok());
}

#[test]
fn reports_move_by_a_fifth_at_most() {
    let by = |n: u8| UpdateTvl { admin: key(n) };
    let report = |v: &mut ManagedVault, n: u8, tvl: u64, price: u64| {
        update_tvl::handler(v, &by(n), tvl, price, 2_000)
    };
    let mut v = vault();
    assert_eq!(report(&mut v, USER, 4_000, 1), Err(VaultError::Unauthorized));
    assert_eq!(report(&mut v, ADMIN, 4_000, 0), Err(VaultError::InvalidSolPrice));
    assert_eq!(report(&mut v, ADMIN, 4_801, 7), Err(VaultError::TvlChangeExceeded));
    assert_eq!(report(&mut v, ADMIN, 3_199, 7), Err(VaultError::TvlChangeExceeded));
    assert_eq!(v.last_tvl_update, 1_000);
    assert_eq!(report(&mut v, ADMIN, 4_800, 7), Ok(()));
    assert_eq!((v.tvl_usd, v.sol_price_usd, v.last_tvl_update), (4_800, 7, 2_000));
    v.total_shares = 0;
    assert_eq!(report(&mut v, ADMIN, 1, 7), Ok(()));
}

fn manage() -> ManageAccounts {
    ManageAccounts {
        admin: key(ADMIN),
        sol_treasury: token(6, 50, 500),
        usdc_treasury: token(USDC, 50, 1_000),
        admin_wsol_account: token(6, ADMIN, 300),
        admin_usdc_account: token(USDC, ADMIN, 300),
    }
}

#[test]
fn half_of_a_treasury_may_leave_and_come_back() {
    let mut v = vault();
    let e = withdraw_to_manage::handler(&mut v, &manage(), 250, 300).unwrap();
    assert_eq!((e.admin, e.sol_amount, e.usdc_amount), (key(ADMIN), 250, 300));
    assert_eq!((v.treasury_sol, v.treasury_usdc, v.tvl_usd), (250, 700, 4_000));
    assert_eq!(return_from_manage::handler(&mut v, &manage(), 250, 300), Ok(()));
    assert_eq!((v.treasury_sol, v.treasury_usdc, v.tvl_usd), (500, 1_000, 4_000));
}

#[test]
fn withdrawals_to_manage_are_refused() {
    let refused = |change: fn(&mut ManagedVault, &mut ManageAccounts), sol: u64, usdc: u64| {
        let (mut v, mut a) = (vault(), manage());
        change(&mut v, &mut a);
        withdraw_to_manage::handler(&mut v, &a, sol, usdc).unwrap_err()
    };
    assert_eq!(refused(|_, a| a.admin = key(9), 1, 1), VaultError::Unauthorized);
    assert_eq!(
        refused(|_, a| a.admin_wsol_account.owner = key(9), 1, 1),
        VaultError::ConstraintRaw
    );
    assert_eq!(
        refused(|_, a| a.admin_usdc_account.owner = key(9), 1, 1),
        VaultError::ConstraintRaw
    );
    assert_eq!(refused(|_, _| {}, 0, 0), VaultError::InvalidAmount);
    assert_eq!(refused(|_, _| {}, 501, 0), VaultError::InsufficientTreasuryBalance);
    assert_eq!(refused(|_, _| {}, 0, 1_001), VaultError::InsufficientTreasuryBalance);
    assert_eq!(refused(|_, _| {}, 251, 0), VaultError::WithdrawalExceedsTreasury);
    assert_eq!(refused(|_, _| {}, 0, 501), VaultError::WithdrawalExceedsTreasury);
    assert_eq!(refused(|v, _| v.treasury_sol = 9, 10, 0), VaultError::MathOverflow);
    assert_eq!(refused(|v, _| v.treasury_usdc = 9, 0, 10), VaultError::MathOverflow);
}

#[test]
fn returns_are_refused() {
    let mut v = vault();
    let mut a = manage();
    assert_eq!(
        return_from_manage::handler(&mut v, &a, 301, 0),
        Err(VaultError::InsufficientTreasuryBalance)
    );
    assert_eq!(
        return_from_manage::handler(&mut v, &a, 0, 301),
        Err(VaultError::InsufficientTreasuryBalance)
    );
    assert_eq!(return_from_manage::handler(&mut v, &a, 0, 0), Err(VaultError::InvalidAmount));
    a.admin = key(9);
    assert_eq!(return_from_manage::handler(&mut v, &a, 1, 1), Err(VaultError::Unauthorized));
    assert_eq!(v.treasury_sol, 500);
}
