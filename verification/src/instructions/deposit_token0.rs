//! A deposit of token0.
//!
//! In order: `begin`; read the position if the quote needs it; `settle`; move the
//! tokens in and mint the shares.

use crate::accounts::{Balances, PersonalPosition};
use crate::errors::VaultError;
use crate::events::DepositToken0Event;
use crate::instructions::deposit::{
    add_value, credit, credit_refusal, dead_shares, quote, quote_fits, quote_refusal, quotes,
    record_after, value_vault, vault_after, worth, worth_after, DepositAccounts, DepositQuote, DepositRequest,
};
use crate::instructions::sync_position_value::amounts_fit;
use crate::pubkey::Pubkey;
use crate::state::{shares_for, value_at, UserDeposit, Vault};
use vstd::prelude::*;

verus! {

/// Accounts of a deposit of token0.
pub type DepositToken0 = DepositAccounts;

/// Checks a deposit and prices it.
pub fn begin(
    vault: &Vault,
    accounts: &DepositToken0,
    request: &DepositRequest,
    clmm_program: &Pubkey,
    pool_data: &[u8],
    obs_data: &[u8],
) -> (r: Result<DepositQuote, VaultError>)
    requires
        quote_fits(
            *vault,
            *accounts,
            vault.token0_mint,
            *request,
            *clmm_program,
            pool_data@,
            obs_data@,
        ),
    ensures
        match quote_refusal(
            *vault,
            *accounts,
            vault.token0_mint,
            *request,
            *clmm_program,
            pool_data@,
            obs_data@,
        ) {
            Some(e) => r == Err::<DepositQuote, VaultError>(e),
            None => r matches Ok(priced) && quotes(priced, *vault, pool_data@),
        },
{
    quote(vault, accounts, &vault.token0_mint, request, clmm_program, pool_data, obs_data)
}

/// What comes into the treasuries.
pub open spec fn deposited(amount: u64) -> Balances {
    Balances { token0: amount, token1: 0 }
}

/// The value of a deposit in token1 units, at the quoted price.
pub open spec fn deposit_value(vault: Vault, quote: DepositQuote, amount: u64) -> u64 {
    value_at(amount as int, quote.price as int, vault.token0_decimals as int)
}

/// Values a deposit at the quoted price and credits it. `position` is the pool
/// program's record of the position, where the quote needs it.
///
/// On success as many shares as the event says are to be minted.
pub fn settle(
    vault: &mut Vault,
    record: &mut UserDeposit,
    accounts: &DepositToken0,
    request: &DepositRequest,
    quote: &DepositQuote,
    position: Option<PersonalPosition>,
    now: i64,
) -> (r: Result<DepositToken0Event, VaultError>)
    requires
        old(vault).token0_decimals <= 38,
        quote.needs_position <==> position is Some,
        position matches Some(p) ==> amounts_fit(p, quote.pool),
    ensures
        ({
            let value = deposit_value(*old(vault), *quote, request.amount);
            let tvl = worth(*old(vault), *quote, position);
            let shares = shares_for(value as int, old(vault).total_shares as int, tvl as int);
            match credit_refusal(
                *old(vault),
                *old(record),
                deposited(request.amount),
                value as int,
                tvl as int,
                request.min_shares_out as int,
            ) {
                Some(e) => {
                    &&& r == Err::<DepositToken0Event, VaultError>(e)
                    &&& *final(vault) == *old(vault)
                    &&& *final(record) == *old(record)
                },
                None => {
                    &&& r == Ok::<DepositToken0Event, VaultError>(
                    (DepositToken0Event {
                        user: accounts.user,
                        amount: request.amount,
                        deposit_value: value,
                        shares_minted: shares as u64,
                        total_shares: (old(vault).total_shares + shares + dead_shares(
                            *old(vault),
                        )) as u64,
                        tvl: worth_after(tvl, value),
                        token0_price: quote.price,
                    }),
                    )
                    &&& *final(vault) == vault_after(
                        *old(vault),
                        deposited(request.amount),
                        shares,
                    )
                    &&& *final(record) == record_after(
                        *old(record),
                        *accounts,
                        deposited(request.amount),
                        shares,
                        now,
                    )
                },
            }
        }),
{
    let tvl: u64 = value_vault(vault, quote, position);
    let value: u64 = vault.token0_to_token1(request.amount, quote.price);
    let amount: u64 = request.amount;
    let shares: u64 = match credit(
        vault,
        record,
        accounts,
        Balances { token0: amount, token1: 0 },
        value,
        tvl,
        request.min_shares_out,
        now,
    ) {
        Ok(v) => v,
        Err(e) => return Err(e),
    };
    Ok(
        DepositToken0Event {
            user: accounts.user,
            amount: request.amount,
            deposit_value: value,
            shares_minted: shares,
            total_shares: vault.total_shares,
            tvl: add_value(tvl, value),
            token0_price: quote.price,
        },
    )
}

} // verus!
