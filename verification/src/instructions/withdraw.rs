//! Full withdrawal from the treasury while there is no position.

use crate::accounts::HolderAccounts;
use crate::constants::EMERGENCY_WITHDRAW_SECS;
use crate::errors::VaultError;
use crate::events::WithdrawEvent;
use crate::math::{clamp_u64, monus, mul_div};
use crate::state::{pro_rata, UserDeposit, Vault};
use vstd::prelude::*;

verus! {

/// Accounts of a withdrawal from the treasury.
pub type Withdraw = HolderAccounts;

/// A rebalance is on, and has not been stuck for so long that holders may
/// withdraw regardless.
pub open spec fn rebalance_blocks(vault: Vault, now: int) -> bool {
    vault.is_rebalancing && !(vault.rebalance_started_at > 0 && now - vault.rebalance_started_at
        > EMERGENCY_WITHDRAW_SECS)
}

/// What the holders own together: the treasury less the protocol's fees, and
/// what is recorded as in a position. The sum saturates at 64 bits.
pub open spec fn holdings(vault: Vault) -> (int, int) {
    (
        clamp_u64(vault.user_token0() + vault.position_token0) as int,
        clamp_u64(vault.user_token1() + vault.position_token1) as int,
    )
}

/// What a holder of `shares` is due.
pub open spec fn due(vault: Vault, shares: int) -> (int, int) {
    (
        pro_rata(holdings(vault).0, shares, vault.total_shares as int),
        pro_rata(holdings(vault).1, shares, vault.total_shares as int),
    )
}

/// Why a withdrawal is refused, if it is.
pub open spec fn refusal(
    vault: Vault,
    user_deposit: UserDeposit,
    accounts: Withdraw,
    min_token0_out: int,
    min_token1_out: int,
    now: int,
) -> Option<VaultError> {
    let shares = accounts.user_share_account.amount as int;
    let (token0, token1) = due(vault, shares);
    if accounts.refusal(user_deposit.user) is Some {
        accounts.refusal(user_deposit.user)
    } else if vault.is_paused {
        Some(VaultError::VaultPaused)
    } else if vault.has_active_position {
        Some(VaultError::PositionAlreadyExists)
    } else if rebalance_blocks(vault, now) {
        Some(VaultError::RebalancingInProgress)
    } else if shares == 0 || vault.total_shares == 0 {
        Some(VaultError::InsufficientShares)
    } else if token0 > u64::MAX || token1 > u64::MAX {
        Some(VaultError::MathOverflow)
    } else if token0 > monus(
        accounts.token0_treasury.amount as int,
        vault.accumulated_protocol_fees_token0 as int,
    ) || token1 > monus(
        accounts.token1_treasury.amount as int,
        vault.accumulated_protocol_fees_token1 as int,
    ) {
        Some(VaultError::WithdrawalExceedsTreasury)
    } else if token0 < min_token0_out || token1 < min_token1_out {
        Some(VaultError::SlippageExceeded)
    } else if shares > vault.total_shares {
        Some(VaultError::MathOverflow)
    } else {
        None
    }
}

/// The vault after a withdrawal of `shares`.
pub open spec fn vault_after(vault: Vault, shares: int) -> Vault {
    let (token0, token1) = due(vault, shares);
    Vault {
        treasury_token0: monus(vault.treasury_token0 as int, token0) as u64,
        treasury_token1: monus(vault.treasury_token1 as int, token1) as u64,
        total_shares: (vault.total_shares - shares) as u64,
        ..vault
    }
}

/// The deposit record after a withdrawal of `shares`.
pub open spec fn record_after(user_deposit: UserDeposit, shares: int, now: i64) -> UserDeposit {
    UserDeposit {
        shares: monus(user_deposit.shares as int, shares) as u64,
        updated_at: now,
        ..user_deposit
    }
}

/// Redeems all of the holder's shares for the holder's part of the treasury.
///
/// The shares redeemed are those in the holder's account, not those recorded as
/// deposited: whoever holds shares can redeem them. On success, as many shares
/// as the event says are to be burned, and the amounts that it says are to be
/// paid out of the treasuries. A rebalance stuck for more than an hour does
/// not block withdrawals.
pub fn handler(
    vault: &mut Vault,
    user_deposit: &mut UserDeposit,
    accounts: &Withdraw,
    min_token0_out: u64,
    min_token1_out: u64,
    now: i64,
) -> (r: Result<WithdrawEvent, VaultError>)
    ensures
        match refusal(
            *old(vault),
            *old(user_deposit),
            *accounts,
            min_token0_out as int,
            min_token1_out as int,
            now as int,
        ) {
            Some(e) => {
                &&& r == Err::<WithdrawEvent, VaultError>(e)
                &&& *final(vault) == *old(vault)
                &&& *final(user_deposit) == *old(user_deposit)
            },
            None => {
                let shares = accounts.user_share_account.amount;
                &&& r == Ok::<WithdrawEvent, VaultError>(
                    (WithdrawEvent {
                        user: accounts.user,
                        shares_burned: shares,
                        token0_withdrawn: due(*old(vault), shares as int).0 as u64,
                        token1_withdrawn: due(*old(vault), shares as int).1 as u64,
                        withdrawal_value: 0,
                    }),
                )
                &&& *final(vault) == vault_after(*old(vault), shares as int)
                &&& *final(user_deposit) == record_after(*old(user_deposit), shares as int, now)
            },
        },
{
    match accounts.check(&user_deposit.user) {
        Err(e) => return Err(e),
        Ok(()) => {},
    }
    if vault.is_paused {
        return Err(VaultError::VaultPaused);
    }
    if vault.has_active_position {
        return Err(VaultError::PositionAlreadyExists);
    }
    if vault.is_rebalancing {
        let elapsed: i128 = now as i128 - vault.rebalance_started_at as i128;
        if !(vault.rebalance_started_at > 0 && elapsed > EMERGENCY_WITHDRAW_SECS as i128) {
            return Err(VaultError::RebalancingInProgress);
        }
    }
    let shares: u64 = accounts.user_share_account.amount;
    if shares == 0 {
        return Err(VaultError::InsufficientShares);
    }
    let total_shares: u64 = vault.total_shares;
    if total_shares == 0 {
        return Err(VaultError::InsufficientShares);
    }
    let held0: u64 = vault.user_treasury_token0().saturating_add(vault.position_token0);
    let held1: u64 = vault.user_treasury_token1().saturating_add(vault.position_token1);
    proof {
        crate::math::lemma_mul_u64(held0, shares);
        crate::math::lemma_div_bounds(held0 * shares, total_shares as int);
        crate::math::lemma_mul_u64(held1, shares);
        crate::math::lemma_div_bounds(held1 * shares, total_shares as int);
    }
    let token0: u64 = match mul_div(held0, shares, total_shares as u128) {
        Some(v) => v,
        None => return Err(VaultError::MathOverflow),
    };
    let token1: u64 = match mul_div(held1, shares, total_shares as u128) {
        Some(v) => v,
        None => return Err(VaultError::MathOverflow),
    };
    let available0: u64 = accounts.token0_treasury.amount.saturating_sub(
        vault.accumulated_protocol_fees_token0,
    );
    let available1: u64 = accounts.token1_treasury.amount.saturating_sub(
        vault.accumulated_protocol_fees_token1,
    );
    if token0 > available0 || token1 > available1 {
        return Err(VaultError::WithdrawalExceedsTreasury);
    }
    if token0 < min_token0_out || token1 < min_token1_out {
        return Err(VaultError::SlippageExceeded);
    }
    let remaining_shares: u64 = match vault.total_shares.checked_sub(shares) {
        Some(v) => v,
        None => return Err(VaultError::MathOverflow),
    };
    vault.treasury_token0 = vault.treasury_token0.saturating_sub(token0);
    vault.treasury_token1 = vault.treasury_token1.saturating_sub(token1);
    vault.total_shares = remaining_shares;
    user_deposit.shares = user_deposit.shares.saturating_sub(shares);
    user_deposit.updated_at = now;
    Ok(
        WithdrawEvent {
            user: accounts.user,
            shares_burned: shares,
            token0_withdrawn: token0,
            token1_withdrawn: token1,
            withdrawal_value: 0,
        },
    )
}

} // verus!
