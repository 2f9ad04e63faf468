//! Setting up a vault and its settings, and paying the protocol.

use vault::accounts::{Balances, MintAccount, PositionAccounts, TokenAccount, VaultBumps};
use vault::errors::VaultError;
use vault::instructions::{
    accept_admin, cancel_rebalance, collect_fees, extract_protocol_fee, extract_rewards,
    initialize, rebalance, set_operator, set_paused, transfer_admin,
};
use vault::pubkey::Pubkey;
use vault::state::Vault;

fn key(n: u8) -> Pubkey {
    Pubkey { bytes: [n; 32] }
}

fn token(mint: u8, owner: u8, amount: u64) -> TokenAccount {
    TokenAccount { key: key(200), mint: key(mint), owner: key(owner), amount }
}

const ADMIN: u8 = 1;
const OPERATOR: u8 = 2;
const WALLET: u8 = 3;
const MINT0: u8 = 10;
const MINT1: u8 = 11;
const POOL: u8 = 12;
const POSITION: u8 = 13;

fn vault() -> Vault {
    let mut v = Vault::default();
    v.admin = key(ADMIN);
    v.operator = key(OPERATOR);
    v.protocol_wallet = key(WALLET);
    v.token0_mint = key(MINT0);
    v.token1_mint = key(MINT1);
    v.pool_id = key(POOL);
    v
}

fn new_accounts() -> initialize::Initialize {
    initialize::Initialize {
        share_mint: key(20),
        token0_treasury: key(21),
        token1_treasury: key(22),
        token0_mint: MintAccount { key: key(MINT0), decimals: 9 },
        token1_mint: MintAccount { key: key(MINT1), decimals: 6 },
        pool: key(POOL),
        pool_mint_0: key(MINT0),
        pool_mint_1: key(MINT1),
        bumps: VaultBumps { vault: 251, share_mint: 252, token0_treasury: 253, token1_treasury: 254 },
    }
}

#[test]
fn initialize_sets_up_an_empty_vault() {
    let mut v = Vault::default();
    v.total_shares = 77;
    v.is_paused = true;
    let event = initialize::handler(&mut v, &new_accounts(), &key(ADMIN), &key(WALLET)).unwrap();
    assert_eq!(event.pool_id, key(POOL));
    assert_eq!(event.admin, key(ADMIN));
    assert_eq!(v.admin, key(ADMIN));
    assert_eq!(v.operator, key(ADMIN));
    assert_eq!(v.protocol_wallet, key(WALLET));
    assert_eq!(v.token0_treasury, key(21));
    assert_eq!(v.token1_treasury, key(22));
    assert_eq!((v.token0_decimals, v.token1_decimals), (9, 6));
    assert_eq!((v.bump, v.share_mint_bump), (251, 252));
    assert_eq!((v.token0_treasury_bump, v.token1_treasury_bump), (253, 254));
    assert_eq!(v.total_shares, 0);
    assert!(!v.is_paused);
    assert_eq!(v.calculate_tvl(1_000), 0);
}

#[test]
fn initialize_takes_the_mints_in_either_order() {
    let mut v = Vault::default();
    let mut a = new_accounts();
    a.pool_mint_0 = key(MINT1);
    a.pool_mint_1 = key(MINT0);
    assert!(initialize::handler(&mut v, &a, &key(ADMIN), &key(WALLET)).is_ok());
}

#[test]
fn initialize_refuses() {
    let none = Pubkey::default();
    let mut v = Vault::default();
    let a = new_accounts();
    let r = initialize::handler(&mut v, &a, &none, &key(WALLET));
    assert_eq!(r.unwrap_err(), VaultError::Unauthorized);
    let r = initialize::handler(&mut v, &a, &key(ADMIN), &none);
    assert_eq!(r.unwrap_err(), VaultError::Unauthorized);
    let mut same = a;
    same.token1_mint = same.token0_mint;
    let r = initialize::handler(&mut v, &same, &key(ADMIN), &key(WALLET));
    assert_eq!(r.unwrap_err(), VaultError::InvalidMint);
    let mut other = a;
    other.pool_mint_1 = key(99);
    let r = initialize::handler(&mut v, &other, &key(ADMIN), &key(WALLET));
    assert_eq!(r.unwrap_err(), VaultError::InvalidMint);
    let mut fine = a;
    fine.token1_mint.decimals = 18;
    let mut deep = a;
    deep.token1_mint.decimals = 19;
    let r = initialize::handler(&mut v, &deep, &key(ADMIN), &key(WALLET));
    assert_eq!(r.unwrap_err(), VaultError::InvalidMint);
    assert_eq!(v.admin, none);
    assert!(initialize::handler(&mut v, &fine, &key(ADMIN), &key(WALLET)).is_ok());
}

#[test]
fn pausing_is_the_admins() {
    let mut v = vault();
    let r = set_paused::handler(&mut v, &set_paused::SetPaused { admin: key(OPERATOR) }, true);
    assert_eq!(r.unwrap_err(), VaultError::Unauthorized);
    assert!(!v.is_paused);
    let e = set_paused::handler(&mut v, &set_paused::SetPaused { admin: key(ADMIN) }, true).unwrap();
    assert!(e.paused && v.is_paused);
    set_paused::handler(&mut v, &set_paused::SetPaused { admin: key(ADMIN) }, false).unwrap();
    assert!(!v.is_paused);
}

#[test]
fn handing_over_takes_two_steps() {
    let mut v = vault();
    let accept = |v: &mut Vault, n: u8| {
        accept_admin::handler(v, &accept_admin::AcceptAdmin { new_admin: key(n) })
    };
    assert_eq!(accept(&mut v, 5).unwrap_err(), VaultError::NoPendingAdmin);
    let by = |n: u8| transfer_admin::TransferAdmin { admin: key(n) };
    let r = transfer_admin::handler(&mut v, &by(5), &key(5));
    assert_eq!(r.unwrap_err(), VaultError::Unauthorized);
    let e = transfer_admin::handler(&mut v, &by(ADMIN), &key(5)).unwrap();
    assert_eq!((e.current_admin, e.proposed_admin), (key(ADMIN), key(5)));
    assert_eq!(v.admin, key(ADMIN));
    assert_eq!(accept(&mut v, 6).unwrap_err(), VaultError::Unauthorized);
    let e = accept(&mut v, 5).unwrap();
    assert_eq!((e.old_admin, e.new_admin), (key(ADMIN), key(5)));
    assert_eq!(v.admin, key(5));
    assert_eq!(accept(&mut v, 5).unwrap_err(), VaultError::NoPendingAdmin);
}

#[test]
fn the_operator_is_the_admins_choice() {
    let mut v = vault();
    let by = |n: u8| set_operator::SetOperator { admin: key(n) };
    let r = set_operator::handler(&mut v, &by(OPERATOR), &key(9));
    assert_eq!(r.unwrap_err(), VaultError::Unauthorized);
    let r = set_operator::handler(&mut v, &by(ADMIN), &Pubkey::default());
    assert_eq!(r.unwrap_err(), VaultError::InvalidArgument);
    let e = set_operator::handler(&mut v, &by(ADMIN), &key(9)).unwrap();
    assert_eq!((e.old_operator, e.new_operator), (key(OPERATOR), key(9)));
    assert!(v.is_operator(&key(9)) && !v.is_operator(&key(OPERATOR)));
}

#[test]
fn a_stuck_rebalance_is_called_off() {
    let mut v = vault();
    let by = |n: u8| cancel_rebalance::CancelRebalance { admin: key(n) };
    let r = cancel_rebalance::handler(&mut v, &by(ADMIN));
    assert_eq!(r.unwrap_err(), VaultError::NotRebalancing);
    rebalance::start_rebalance(&mut v, 1_234);
    assert!(v.is_rebalancing);
    assert_eq!(v.rebalance_started_at, 1_234);
    let r = cancel_rebalance::handler(&mut v, &by(OPERATOR));
    assert_eq!(r.unwrap_err(), VaultError::Unauthorized);
    cancel_rebalance::handler(&mut v, &by(ADMIN)).unwrap();
    assert!(!v.is_rebalancing);
    assert_eq!(v.rebalance_started_at, 0);
}

#[test]
fn fees_must_be_collected_in_the_same_slot() {
    let mut v = vault();
    v.last_fee_collection_slot = 41;
    assert_eq!(rebalance::check_fees_collected(&v, 41), Ok(()));
    assert_eq!(rebalance::check_fees_collected(&v, 42), Err(VaultError::FeesNotCollected));
}

fn position() -> PositionAccounts {
    PositionAccounts {
        pool_state: key(POOL),
        position_nft_account: token(POSITION, 50, 1),
        personal_position_pool_id: key(POOL),
    }
}

#[test]
fn fees_are_split_ten_to_ninety() {
    let mut v = vault();
    v.has_active_position = true;
    v.position_mint = key(POSITION);
    v.treasury_token0 = 1_000;
    v.treasury_token1 = 2_000;
    v.accumulated_protocol_fees_token0 = 5;
    let accounts = collect_fees::CollectFees { admin: key(OPERATOR), position: position() };
    assert_eq!(collect_fees::begin(&v, &accounts), Ok(()));
    let before = Balances { token0: 1_000, token1: 2_000 };
    let after = Balances { token0: 1_109, token1: 2_000 };
    let e = collect_fees::finish(&mut v, before, after, 99).unwrap();
    assert_eq!((e.total_token0_fees, e.protocol_token0_fees), (109, 10));
    assert_eq!((e.total_token1_fees, e.protocol_token1_fees), (0, 0));
    assert_eq!(v.accumulated_protocol_fees_token0, 15);
    assert_eq!(v.user_treasury_token0(), 995 + 99);
    assert_eq!(v.treasury_token0, 1_109);
    assert_eq!(v.last_fee_collection_slot, 99);
}

#[test]
fn fee_collection_is_refused() {
    let mut v = vault();
    v.position_mint = key(POSITION);
    let by = |n: u8| collect_fees::CollectFees { admin: key(n), position: position() };
    assert_eq!(collect_fees::begin(&v, &by(9)), Err(VaultError::Unauthorized));
    assert_eq!(collect_fees::begin(&v, &by(ADMIN)), Err(VaultError::NoActivePosition));
    v.has_active_position = true;
    assert_eq!(collect_fees::begin(&v, &by(ADMIN)), Ok(()));
    let mut a = by(ADMIN);
    a.position.position_nft_account.amount = 0;
    assert_eq!(collect_fees::begin(&v, &a), Err(VaultError::ConstraintRaw));
    let mut a = by(ADMIN);
    a.position.position_nft_account.mint = key(99);
    assert_eq!(collect_fees::begin(&v, &a), Err(VaultError::InvalidPosition));
    let mut a = by(ADMIN);
    a.position.personal_position_pool_id = key(99);
    assert_eq!(collect_fees::begin(&v, &a), Err(VaultError::ConstraintRaw));
    v.accumulated_protocol_fees_token1 = u64::MAX;
    let none = Balances { token0: 0, token1: 0 };
    let r = collect_fees::finish(&mut v, none, Balances { token0: 0, token1: 10 }, 1);
    assert_eq!(r.unwrap_err(), VaultError::MathOverflow);
    assert_eq!(v.last_fee_collection_slot, 0);
}

fn fee_accounts() -> extract_protocol_fee::ExtractProtocolFee {
    extract_protocol_fee::ExtractProtocolFee {
        admin: key(ADMIN),
        token0_treasury: token(MINT0, 50, 100),
        token1_treasury: token(MINT1, 50, 100),
        protocol_token0_account: token(MINT0, WALLET, 0),
        protocol_token1_account: token(MINT1, WALLET, 0),
    }
}

#[test]
fn protocol_fees_are_paid_out_once() {
    let mut v = vault();
    v.treasury_token0 = 100;
    v.treasury_token1 = 100;
    v.accumulated_protocol_fees_token0 = 30;
    v.accumulated_protocol_fees_token1 = 40;
    let (user0, user1) = (v.user_treasury_token0(), v.user_treasury_token1());
    let pay = extract_protocol_fee::begin(&v, &fee_accounts()).unwrap();
    assert_eq!(pay, Balances { token0: 30, token1: 40 });
    let e = extract_protocol_fee::finish(&mut v, Balances { token0: 70, token1: 60 });
    assert_eq!((e.token0_amount, e.token1_amount), (30, 40));
    assert_eq!(e.protocol_wallet, key(WALLET));
    assert_eq!((v.user_treasury_token0(), v.user_treasury_token1()), (user0, user1));
    let r = extract_protocol_fee::begin(&v, &fee_accounts());
    assert_eq!(r.unwrap_err(), VaultError::NoFeesToExtract);
}

#[test]
fn protocol_fee_payout_is_refused() {
    let mut v = vault();
    v.accumulated_protocol_fees_token1 = 1;
    let mut a = fee_accounts();
    a.admin = key(OPERATOR);
    assert_eq!(extract_protocol_fee::begin(&v, &a), Err(VaultError::Unauthorized));
    let mut a = fee_accounts();
    a.protocol_token0_account.owner = key(9);
    assert_eq!(extract_protocol_fee::begin(&v, &a), Err(VaultError::Unauthorized));
    let mut a = fee_accounts();
    a.protocol_token0_account.mint = key(MINT1);
    assert_eq!(extract_protocol_fee::begin(&v, &a), Err(VaultError::InvalidMint));
    let mut a = fee_accounts();
    a.protocol_token1_account.owner = key(9);
    assert_eq!(extract_protocol_fee::begin(&v, &a), Err(VaultError::Unauthorized));
    let mut a = fee_accounts();
    a.protocol_token1_account.mint = key(MINT0);
    assert_eq!(extract_protocol_fee::begin(&v, &a), Err(VaultError::InvalidMint));
    assert!(extract_protocol_fee::begin(&v, &fee_accounts()).is_ok());
}

fn reward_accounts() -> extract_rewards::ExtractRewards {
    extract_rewards::ExtractRewards {
        admin: key(ADMIN),
        vault: key(50),
        reward_mint: key(60),
        vault_reward_account: token(60, 50, 777),
        protocol_reward_account: token(60, WALLET, 0),
    }
}

#[test]
fn rewards_go_to_the_protocol() {
    let v = vault();
    let e = extract_rewards::handler(&v, &reward_accounts()).unwrap();
    assert_eq!((e.reward_mint, e.amount, e.protocol_wallet), (key(60), 777, key(WALLET)));
}

#[test]
fn reward_payout_is_refused() {
    let v = vault();
    let refused = |change: fn(&mut extract_rewards::ExtractRewards)| {
        let mut a = reward_accounts();
        change(&mut a);
        extract_rewards::handler(&vault(), &a).unwrap_err()
    };
    assert_eq!(refused(|a| a.admin = key(OPERATOR)), VaultError::Unauthorized);
    assert_eq!(refused(|a| a.reward_mint = key(MINT0)), VaultError::InvalidMint);
    assert_eq!(refused(|a| a.reward_mint = key(MINT1)), VaultError::InvalidMint);
    assert_eq!(refused(|a| a.vault_reward_account.owner = key(9)), VaultError::Unauthorized);
    assert_eq!(refused(|a| a.vault_reward_account.mint = key(9)), VaultError::InvalidMint);
    assert_eq!(refused(|a| a.protocol_reward_account.owner = key(9)), VaultError::Unauthorized);
    assert_eq!(refused(|a| a.protocol_reward_account.mint = key(9)), VaultError::InvalidMint);
    assert_eq!(refused(|a| a.vault_reward_account.amount = 0), VaultError::NoRewardsToExtract);
    assert_eq!(v.admin, key(ADMIN));
}
