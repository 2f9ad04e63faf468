//! What a deposit does.

use crate::accounts::{check_position_account, Balances, PersonalPosition, PoolPrice};
use crate::errors::VaultError;
use crate::events::{DepositToken0Event, DepositToken1Event};
use crate::instructions::deposit::{
    check_request, credit, quote, quote_price, read_pool, value_vault, DepositAccounts,
    DepositQuote, DepositRequest,
};
use crate::instructions::{deposit_token0, deposit_token1};
use crate::oracle::check_feed;
use crate::price::{
    read_pool_sqrt_price_x64, read_pool_tick_current, read_pool_token_mint_0, sqrt_price_to_price,
};
use crate::pubkey::{lemma_key_ext, Pubkey};
use crate::state::{shares_for_deposit, UserDeposit, Vault};
use vstd::prelude::*;

verus! {

/// A deposit passes the first checks if and only if the tokens and the shares are
/// in accounts of the depositor and of the right mints, the pool is the vault's
/// and the pool program's, the amount is something and no less than the least,
/// and the vault neither is paused nor rebalances. Each refusal comes only where
/// its reason is true.
pub proof fn law_deposit_is_refused_for_a_reason(
    vault: Vault,
    accounts: DepositAccounts,
    mint: Pubkey,
    request: DepositRequest,
    clmm_program: Pubkey,
    r: Result<(), VaultError>,
)
    requires
        call_ensures(check_request, (&vault, &accounts, &mint, &request, &clmm_program), r),
    ensures
        match r {
            Ok(()) => {
                &&& accounts.user_token_account.owner == accounts.user
                &&& accounts.user_token_account.mint == mint
                &&& accounts.user_share_account.owner == accounts.user
                &&& accounts.user_share_account.mint == accounts.share_mint
                &&& accounts.raydium_pool == vault.pool_id
                &&& accounts.raydium_pool_owner == clmm_program
                &&& 0 < request.amount
                &&& request.min_deposit <= request.amount
                &&& !vault.is_paused
                &&& !vault.is_rebalancing
            },
            Err(VaultError::ConstraintRaw) => {
                ||| accounts.user_token_account.owner != accounts.user
                ||| accounts.user_share_account.owner != accounts.user
                ||| accounts.user_share_account.mint != accounts.share_mint
            },
            Err(VaultError::InvalidMint) => accounts.user_token_account.mint != mint,
            Err(VaultError::InvalidPriceFeed) => accounts.raydium_pool != vault.pool_id
                || accounts.raydium_pool_owner != clmm_program,
            Err(VaultError::InvalidAmount) => request.amount == 0,
            Err(VaultError::DepositTooSmall) => request.amount < request.min_deposit,
            Err(VaultError::VaultPaused) => vault.is_paused,
            Err(VaultError::RebalancingInProgress) => vault.is_rebalancing,
            Err(_) => false,
        },
{
}

/// A pool account that is long enough is read field by field.
pub proof fn law_pool_is_read_field_by_field(
    pool_data: &[u8],
    sqrt_price_x64: Option<u128>,
    tick_current: Option<i32>,
    token_mint_0: Option<Pubkey>,
    r: Option<PoolPrice>,
)
    requires
        call_ensures(read_pool, (pool_data,), r),
        call_ensures(read_pool_sqrt_price_x64, (pool_data,), sqrt_price_x64),
        call_ensures(read_pool_tick_current, (pool_data,), tick_current),
        call_ensures(read_pool_token_mint_0, (pool_data,), token_mint_0),
    ensures
        match r {
            Some(pool) => {
                &&& sqrt_price_x64 == Some(pool.sqrt_price_x64)
                &&& tick_current == Some(pool.tick_current)
                &&& token_mint_0 == Some(pool.token_mint_0)
            },
            None => sqrt_price_x64 is None || tick_current is None || token_mint_0 is None,
        },
{
    if r is Some {
        lemma_key_ext(r->0.token_mint_0, token_mint_0->0);
    }
}

/// A deposit is priced at the pool's spot price, if that is more than nothing and
/// agrees with the oracle within two and a half percent of its root. A vault
/// without shares does without an oracle. The position is to be read where there
/// is one with liquidity.
pub proof fn law_deposit_is_priced_at_the_spot(
    vault: Vault,
    observation_owner: Pubkey,
    clmm_program: Pubkey,
    pool_data: &[u8],
    obs_data: &[u8],
    pool: Option<PoolPrice>,
    spot: Option<u64>,
    feed: Result<(), VaultError>,
    r: Result<DepositQuote, VaultError>,
)
    requires
        call_ensures(
            quote_price,
            (&vault, &observation_owner, &clmm_program, pool_data, obs_data),
            r,
        ),
        call_ensures(read_pool, (pool_data,), pool),
        pool is Some ==> call_ensures(
            sqrt_price_to_price,
            (
                pool->0.sqrt_price_x64,
                pool->0.token_mint_0 == vault.token0_mint,
                vault.token0_decimals,
                vault.token1_decimals,
            ),
            spot,
        ) && call_ensures(
            check_feed,
            (
                &vault.pool_id,
                &observation_owner,
                &clmm_program,
                pool->0.sqrt_price_x64,
                obs_data,
                vault.total_shares > 0,
                250u128,
            ),
            feed,
        ),
    ensures
        match r {
            Ok(priced) => {
                &&& pool is Some
                &&& priced.pool == pool->0
                &&& spot == Some(priced.price)
                &&& priced.price > 0
                &&& feed is Ok
                &&& priced.needs_position <==> vault.has_active_position
                    && vault.position_liquidity > 0
            },
            Err(e) => {
                ||| e == VaultError::InvalidPriceFeed && (pool is None || spot is None || spot
                    == Some(0u64))
                ||| pool is Some && feed == Err::<(), VaultError>(e)
            },
        },
{
    if pool is Some {
        if pool->0.token_mint_0@ == vault.token0_mint@ {
            lemma_key_ext(pool->0.token_mint_0, vault.token0_mint);
        }
        if r is Ok {
            lemma_key_ext(r->Ok_0.pool.token_mint_0, pool->0.token_mint_0);
        }
    }
}

/// Checking and pricing come together: a deposit is quoted if and only if it
/// passes the first checks, is priced, and, where the position is to be read, the
/// account handed in is the one that the pool program keeps for it.
pub proof fn law_quote_checks_and_prices(
    vault: Vault,
    accounts: DepositAccounts,
    mint: Pubkey,
    request: DepositRequest,
    clmm_program: Pubkey,
    pool_data: &[u8],
    obs_data: &[u8],
    checked: Result<(), VaultError>,
    priced: Result<DepositQuote, VaultError>,
    located: Result<(), VaultError>,
    r: Result<DepositQuote, VaultError>,
)
    requires
        call_ensures(
            quote,
            (&vault, &accounts, &mint, &request, &clmm_program, pool_data, obs_data),
            r,
        ),
        call_ensures(check_request, (&vault, &accounts, &mint, &request, &clmm_program), checked),
        call_ensures(
            quote_price,
            (&vault, &accounts.observation_owner, &clmm_program, pool_data, obs_data),
            priced,
        ),
        call_ensures(
            check_position_account,
            (&accounts.personal_position, &vault.position_mint, &clmm_program),
            located,
        ),
    ensures
        match r {
            Ok(q) => {
                &&& checked is Ok
                &&& priced is Ok
                &&& q.price == priced->Ok_0.price
                &&& q.pool == priced->Ok_0.pool
                &&& q.needs_position == priced->Ok_0.needs_position
                &&& q.needs_position ==> located is Ok
            },
            Err(e) => {
                ||| checked == Err::<(), VaultError>(e)
                ||| checked is Ok && priced == Err::<DepositQuote, VaultError>(e)
                ||| checked is Ok && priced is Ok && priced->Ok_0.needs_position && located
                    == Err::<(), VaultError>(e)
            },
        },
{
    if r is Ok && priced is Ok {
        lemma_key_ext(r->Ok_0.pool.token_mint_0, priced->Ok_0.pool.token_mint_0);
    }
}

/// Crediting a deposit adds each token to its own treasury and to its own total
/// of the record, and the shares to the shares outstanding and to the record. The
/// first deposit adds a thousand more to the outstanding, which nobody has. A
/// fresh record is made out to the depositor. Nothing else changes. A deposit is
/// refused if it is worth nothing, if it is the first and below 100,000, if it
/// buys no share or fewer than asked for, or if a sum does not fit in 64 bits; a
/// refused deposit changes nothing.
pub proof fn law_credit_adds_to_its_own(
    vault: &mut Vault,
    record: &mut UserDeposit,
    accounts: DepositAccounts,
    amounts: Balances,
    value: u64,
    tvl: u64,
    min_shares_out: u64,
    now: i64,
    shares: u64,
    r: Result<u64, VaultError>,
)
    requires
        call_ensures(
            credit,
            (vault, record, &accounts, amounts, value, tvl, min_shares_out, now),
            r,
        ),
        call_ensures(shares_for_deposit, (value, vault.total_shares, tvl), shares),
    ensures
        ({
            let first = old(vault).total_shares == 0;
            let dead: int = if first {
                1_000
            } else {
                0
            };
            let max = u64::MAX;
            let overflows = {
                ||| old(vault).treasury_token0 + amounts.token0 > max
                ||| old(vault).treasury_token1 + amounts.token1 > max
                ||| old(vault).total_shares + shares + dead > max
                ||| old(record).shares + shares > max
                ||| old(record).total_deposited_token0 + amounts.token0 > max
                ||| old(record).total_deposited_token1 + amounts.token1 > max
            };
            match r {
                Ok(minted) => {
                    &&& minted == shares
                    &&& minted > 0
                    &&& minted >= min_shares_out
                    &&& value > 0
                    &&& first ==> value >= 100_000
                    &&& final(vault).treasury_token0 == old(vault).treasury_token0 + amounts.token0
                    &&& final(vault).treasury_token1 == old(vault).treasury_token1 + amounts.token1
                    &&& final(vault).total_shares == old(vault).total_shares + minted + dead
                    &&& *final(vault) == (Vault {
                        treasury_token0: final(vault).treasury_token0,
                        treasury_token1: final(vault).treasury_token1,
                        total_shares: final(vault).total_shares,
                        ..*old(vault)
                    })
                    &&& final(record).shares == old(record).shares + minted
                    &&& final(record).total_deposited_token0 == old(record).total_deposited_token0
                        + amounts.token0
                    &&& final(record).total_deposited_token1 == old(record).total_deposited_token1
                        + amounts.token1
                    &&& final(record).total_withdrawn_value == old(record).total_withdrawn_value
                    &&& final(record).updated_at == now
                    &&& old(record).created_at == 0 ==> {
                        &&& final(record).user == accounts.user
                        &&& final(record).vault == accounts.vault
                        &&& final(record).created_at == now
                        &&& final(record).bump == accounts.user_deposit_bump
                    }
                    &&& old(record).created_at != 0 ==> {
                        &&& final(record).user == old(record).user
                        &&& final(record).vault == old(record).vault
                        &&& final(record).created_at == old(record).created_at
                        &&& final(record).bump == old(record).bump
                    }
                },
                Err(e) => {
                    &&& *final(vault) == *old(vault)
                    &&& *final(record) == *old(record)
                    &&& match e {
                        VaultError::InvalidAmount => value == 0 || shares == 0,
                        VaultError::DepositTooSmall => first && value < 100_000,
                        VaultError::SlippageExceeded => shares < min_shares_out,
                        VaultError::MathOverflow => overflows,
                        _ => false,
                    }
                },
            }
        }),
{
    crate::state::lemma_shares_for_fits(value, vault.total_shares, tvl);
}

/// A deposit of token0 is quoted as one of the vault's token0.
pub proof fn law_token0_deposit_is_of_token0(
    vault: Vault,
    accounts: DepositAccounts,
    request: DepositRequest,
    clmm_program: Pubkey,
    pool_data: &[u8],
    obs_data: &[u8],
    r: Result<DepositQuote, VaultError>,
    s: Result<DepositQuote, VaultError>,
)
    requires
        call_ensures(
            deposit_token0::begin,
            (&vault, &accounts, &request, &clmm_program, pool_data, obs_data),
            r,
        ),
        call_ensures(
            quote,
            (
                &vault,
                &accounts,
                &vault.token0_mint,
                &request,
                &clmm_program,
                pool_data,
                obs_data,
            ),
            s,
        ),
    ensures
        r == s,
        r is Ok ==> accounts.user_token_account.mint == vault.token0_mint,
{
    if r is Ok && s is Ok {
        lemma_key_ext(r->Ok_0.pool.token_mint_0, s->Ok_0.pool.token_mint_0);
    }
}

/// A deposit of token0 is valued at the quoted price. It goes to the token0 treasury and
/// to the record's token0, leaves token1 alone, and mints shares for its value
/// at the vault's worth before it. The report says so, with the worth after it.
pub proof fn law_token0_deposit_goes_to_token0(
    vault: &mut Vault,
    record: &mut UserDeposit,
    accounts: DepositAccounts,
    request: DepositRequest,
    quote: DepositQuote,
    position: Option<PersonalPosition>,
    now: i64,
    before: Vault,
    value: u64,
    tvl: u64,
    shares: u64,
    r: Result<DepositToken0Event, VaultError>,
)
    requires
        call_ensures(
            deposit_token0::settle,
            (vault, record, &accounts, &request, &quote, position, now),
            r,
        ),
        before == *vault,
        call_ensures(Vault::token0_to_token1, (&before, request.amount, quote.price), value),
        call_ensures(value_vault, (&before, &quote, position), tvl),
        call_ensures(shares_for_deposit, (value, before.total_shares, tvl), shares),
    ensures
        ({
            let first = before.total_shares == 0;
            let dead: int = if first {
                1_000
            } else {
                0
            };
            let max = u64::MAX;
            let overflows = {
                ||| before.treasury_token0 + request.amount > max
                ||| before.total_shares + shares + dead > max
                ||| old(record).shares + shares > max
                ||| old(record).total_deposited_token0 + request.amount > max
            };
            match r {
                Ok(e) => {
                    &&& value > 0
                    &&& first ==> value >= 100_000
                    &&& shares > 0
                    &&& shares >= request.min_shares_out
                    &&& final(vault).treasury_token0 == before.treasury_token0 + request.amount
                    &&& final(vault).treasury_token1 == before.treasury_token1
                    &&& final(vault).total_shares == before.total_shares + shares + dead
                    &&& *final(vault) == (Vault {
                        treasury_token0: final(vault).treasury_token0,
                        total_shares: final(vault).total_shares,
                        ..before
                    })
                    &&& final(record).shares == old(record).shares + shares
                    &&& final(record).total_deposited_token0 == old(record).total_deposited_token0
                        + request.amount
                    &&& final(record).total_deposited_token1
                        == old(record).total_deposited_token1
                    &&& final(record).total_withdrawn_value == old(record).total_withdrawn_value
                    &&& final(record).updated_at == now
                    &&& final(record).user == (if old(record).created_at == 0 {
                        accounts.user
                    } else {
                        old(record).user
                    })
                    &&& final(record).vault == (if old(record).created_at == 0 {
                        accounts.vault
                    } else {
                        old(record).vault
                    })
                    &&& e.user == accounts.user
                    &&& e.amount == request.amount
                    &&& e.shares_minted == shares
                    &&& e.total_shares == final(vault).total_shares
                    &&& e.tvl == (if tvl + value <= u64::MAX {
                        tvl + value
                    } else {
                        tvl as int
                    })
                    &&& e.deposit_value == value
                    &&& e.token0_price == quote.price
                },
                Err(e) => {
                    &&& *final(vault) == *old(vault)
                    &&& *final(record) == *old(record)
                    &&& e == VaultError::InvalidAmount ==> value == 0 || shares == 0
                    &&& e == VaultError::DepositTooSmall ==> first && value < 100_000
                    &&& e == VaultError::SlippageExceeded ==> shares < request.min_shares_out
                    &&& e == VaultError::MathOverflow ==> overflows
                    &&& e == VaultError::InvalidAmount || e == VaultError::DepositTooSmall || e
                        == VaultError::SlippageExceeded || e == VaultError::MathOverflow
                },
            }
        }),
{
    crate::state::lemma_shares_for_fits(value, vault.total_shares, tvl);
}

/// A deposit of token1 is quoted as one of the vault's token1.
pub proof fn law_token1_deposit_is_of_token1(
    vault: Vault,
    accounts: DepositAccounts,
    request: DepositRequest,
    clmm_program: Pubkey,
    pool_data: &[u8],
    obs_data: &[u8],
    r: Result<DepositQuote, VaultError>,
    s: Result<DepositQuote, VaultError>,
)
    requires
        call_ensures(
            deposit_token1::begin,
            (&vault, &accounts, &request, &clmm_program, pool_data, obs_data),
            r,
        ),
        call_ensures(
            quote,
            (
                &vault,
                &accounts,
                &vault.token1_mint,
                &request,
                &clmm_program,
                pool_data,
                obs_data,
            ),
            s,
        ),
    ensures
        r == s,
        r is Ok ==> accounts.user_token_account.mint == vault.token1_mint,
{
    if r is Ok && s is Ok {
        lemma_key_ext(r->Ok_0.pool.token_mint_0, s->Ok_0.pool.token_mint_0);
    }
}

/// A deposit of token1 is its own value. It goes to the token1 treasury and
/// to the record's token1, leaves token0 alone, and mints shares for its value
/// at the vault's worth before it. The report says so, with the worth after it.
pub proof fn law_token1_deposit_goes_to_token1(
    vault: &mut Vault,
    record: &mut UserDeposit,
    accounts: DepositAccounts,
    request: DepositRequest,
    quote: DepositQuote,
    position: Option<PersonalPosition>,
    now: i64,
    before: Vault,
    value: u64,
    tvl: u64,
    shares: u64,
    r: Result<DepositToken1Event, VaultError>,
)
    requires
        call_ensures(
            deposit_token1::settle,
            (vault, record, &accounts, &request, &quote, position, now),
            r,
        ),
        before == *vault,
        value == request.amount,
        call_ensures(value_vault, (&before, &quote, position), tvl),
        call_ensures(shares_for_deposit, (value, before.total_shares, tvl), shares),
    ensures
        ({
            let first = before.total_shares == 0;
            let dead: int = if first {
                1_000
            } else {
                0
            };
            let max = u64::MAX;
            let overflows = {
                ||| before.treasury_token1 + request.amount > max
                ||| before.total_shares + shares + dead > max
                ||| old(record).shares + shares > max
                ||| old(record).total_deposited_token1 + request.amount > max
            };
            match r {
                Ok(e) => {
                    &&& value > 0
                    &&& first ==> value >= 100_000
                    &&& shares > 0
                    &&& shares >= request.min_shares_out
                    &&& final(vault).treasury_token1 == before.treasury_token1 + request.amount
                    &&& final(vault).treasury_token0 == before.treasury_token0
                    &&& final(vault).total_shares == before.total_shares + shares + dead
                    &&& *final(vault) == (Vault {
                        treasury_token1: final(vault).treasury_token1,
                        total_shares: final(vault).total_shares,
                        ..before
                    })
                    &&& final(record).shares == old(record).shares + shares
                    &&& final(record).total_deposited_token1 == old(record).total_deposited_token1
                        + request.amount
                    &&& final(record).total_deposited_token0
                        == old(record).total_deposited_token0
                    &&& final(record).total_withdrawn_value == old(record).total_withdrawn_value
                    &&& final(record).updated_at == now
                    &&& final(record).user == (if old(record).created_at == 0 {
                        accounts.user
                    } else {
                        old(record).user
                    })
                    &&& final(record).vault == (if old(record).created_at == 0 {
                        accounts.vault
                    } else {
                        old(record).vault
                    })
                    &&& e.user == accounts.user
                    &&& e.amount == request.amount
                    &&& e.shares_minted == shares
                    &&& e.total_shares == final(vault).total_shares
                    &&& e.tvl == (if tvl + value <= u64::MAX {
                        tvl + value
                    } else {
                        tvl as int
                    })
                },
                Err(e) => {
                    &&& *final(vault) == *old(vault)
                    &&& *final(record) == *old(record)
                    &&& e == VaultError::InvalidAmount ==> value == 0 || shares == 0
                    &&& e == VaultError::DepositTooSmall ==> first && value < 100_000
                    &&& e == VaultError::SlippageExceeded ==> shares < request.min_shares_out
                    &&& e == VaultError::MathOverflow ==> overflows
                    &&& e == VaultError::InvalidAmount || e == VaultError::DepositTooSmall || e
                        == VaultError::SlippageExceeded || e == VaultError::MathOverflow
                },
            }
        }),
{
    crate::state::lemma_shares_for_fits(value, vault.total_shares, tvl);
}

} // verus!
