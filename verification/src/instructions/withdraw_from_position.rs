//! Withdrawal while there is a position.
//!
//! The pool pays out all fees of a position whenever its liquidity changes. So
//! the fees are collected first and shared with the protocol, and only then is
//! the holder's part of the liquidity removed. In order: `begin`; collect the
//! position's fees; `entitle`; remove the liquidity that it says, if any;
//! `settle`; burn the shares and pay out what it says; `finish`.

use crate::accounts::{Balances, HolderAccounts, PoolPrice, PositionAccounts};
use crate::constants::{MAX_SQRT_DEVIATION_WITHDRAW_BPS, PROTOCOL_FEE_DENOMINATOR};
use crate::errors::{outcome, VaultError};
use crate::events::WithdrawEvent;
use crate::instructions::collect_fees::fees_after;
use crate::instructions::withdraw::record_after;
use crate::math::{clamp_u64, fit_u64_or_zero, lemma_div_bounds, lemma_mul_u64, monus, mul_div};
use crate::oracle::{can_check_feed, check_feed, feed_fits, feed_refusal};
use crate::price::{token1_value, value_in_token1};
use crate::pubkey::Pubkey;
use crate::state::{pro_rata, UserDeposit, Vault};
use crate::wide::U256;
use vstd::prelude::*;

verus! {

/// Accounts of a withdrawal from a position.
#[derive(Clone, Copy, Debug)]
pub struct WithdrawFromPosition {
    /// The vault's address.
    pub vault: Pubkey,
    /// What is paid from and to.
    pub holder: HolderAccounts,
    /// What shows the position to be the vault's.
    pub position: PositionAccounts,
    /// The program that owns the observation account.
    pub observation_owner: Pubkey,
}

/// Why the accounts of the position are refused, if they are.
pub open spec fn position_refusal(vault: Vault, accounts: WithdrawFromPosition) -> Option<VaultError> {
    let p = accounts.position;
    if p.pool_state != vault.pool_id {
        Some(VaultError::InvalidPriceFeed)
    } else if p.position_nft_account.amount != 1 {
        Some(VaultError::ConstraintRaw)
    } else if p.position_nft_account.mint != vault.position_mint {
        Some(VaultError::InvalidPosition)
    } else if p.position_nft_account.owner != accounts.vault {
        Some(VaultError::InvalidPosition)
    } else if p.personal_position_pool_id != p.pool_state {
        Some(VaultError::ConstraintRaw)
    } else {
        None
    }
}

/// Why the accounts are refused, if they are.
pub open spec fn accounts_refusal(
    vault: Vault,
    user_deposit: UserDeposit,
    accounts: WithdrawFromPosition,
) -> Option<VaultError> {
    if !vault.has_active_position {
        Some(VaultError::NoActivePosition)
    } else if accounts.holder.refusal(user_deposit.user) is Some {
        accounts.holder.refusal(user_deposit.user)
    } else {
        position_refusal(vault, accounts)
    }
}

/// Checks the accounts.
pub fn check_accounts(
    vault: &Vault,
    user_deposit: &UserDeposit,
    accounts: &WithdrawFromPosition,
) -> (r: Result<(), VaultError>)
    ensures
        r == outcome(accounts_refusal(*vault, *user_deposit, *accounts)),
{
    if !vault.has_active_position {
        return Err(VaultError::NoActivePosition);
    }
    match accounts.holder.check(&user_deposit.user) {
        Err(e) => return Err(e),
        Ok(()) => {},
    }
    let p: &PositionAccounts = &accounts.position;
    if p.pool_state != vault.pool_id {
        return Err(VaultError::InvalidPriceFeed);
    }
    if p.position_nft_account.amount != 1 {
        return Err(VaultError::ConstraintRaw);
    }
    if p.position_nft_account.mint != vault.position_mint {
        return Err(VaultError::InvalidPosition);
    }
    if p.position_nft_account.owner != accounts.vault {
        return Err(VaultError::InvalidPosition);
    }
    if p.personal_position_pool_id != p.pool_state {
        return Err(VaultError::ConstraintRaw);
    }
    Ok(())
}

/// The oracle's window fits, or the withdrawal is refused before it is read.
pub open spec fn begin_fits(
    vault: Vault,
    user_deposit: UserDeposit,
    accounts: WithdrawFromPosition,
    clmm_program: Pubkey,
    obs_data: Seq<u8>,
) -> bool {
    accounts_refusal(vault, user_deposit, accounts) is None ==> feed_fits(
        vault.pool_id,
        accounts.observation_owner,
        clmm_program,
        obs_data,
    )
}

/// Tells whether `begin` may be called.
pub fn can_begin(
    vault: &Vault,
    user_deposit: &UserDeposit,
    accounts: &WithdrawFromPosition,
    clmm_program: &Pubkey,
    obs_data: &[u8],
) -> (r: bool)
    ensures
        r == begin_fits(*vault, *user_deposit, *accounts, *clmm_program, obs_data@),
{
    match check_accounts(vault, user_deposit, accounts) {
        Err(_) => true,
        Ok(()) => can_check_feed(
            &vault.pool_id,
            &accounts.observation_owner,
            clmm_program,
            obs_data,
        ),
    }
}

/// Why a withdrawal is refused before anything is collected, if it is. A pause
/// is no reason.
pub open spec fn refusal(
    vault: Vault,
    user_deposit: UserDeposit,
    accounts: WithdrawFromPosition,
    clmm_program: Pubkey,
    sqrt_price_x64: int,
    obs_data: Seq<u8>,
) -> Option<VaultError> {
    let feed = feed_refusal(
        vault.pool_id,
        accounts.observation_owner,
        clmm_program,
        sqrt_price_x64,
        obs_data,
        true,
        MAX_SQRT_DEVIATION_WITHDRAW_BPS as int,
    );
    if accounts_refusal(vault, user_deposit, accounts) is Some {
        accounts_refusal(vault, user_deposit, accounts)
    } else if feed is Some {
        feed
    } else if accounts.holder.user_share_account.amount == 0 || vault.total_shares == 0 {
        Some(VaultError::InsufficientShares)
    } else {
        None
    }
}

/// Checks the accounts, the spot price against the oracle, and that there are
/// shares to redeem. On success the position's fees are to be collected.
pub fn begin(
    vault: &Vault,
    user_deposit: &UserDeposit,
    accounts: &WithdrawFromPosition,
    clmm_program: &Pubkey,
    sqrt_price_x64: u128,
    obs_data: &[u8],
) -> (r: Result<(), VaultError>)
    requires
        begin_fits(*vault, *user_deposit, *accounts, *clmm_program, obs_data@),
    ensures
        r == outcome(
            refusal(
                *vault,
                *user_deposit,
                *accounts,
                *clmm_program,
                sqrt_price_x64 as int,
                obs_data@,
            ),
        ),
{
    match check_accounts(vault, user_deposit, accounts) {
        Err(e) => return Err(e),
        Ok(()) => {},
    }
    match check_feed(
        &vault.pool_id,
        &accounts.observation_owner,
        clmm_program,
        sqrt_price_x64,
        obs_data,
        true,
        MAX_SQRT_DEVIATION_WITHDRAW_BPS,
    ) {
        Err(e) => return Err(e),
        Ok(()) => {},
    }
    if accounts.holder.user_share_account.amount == 0 {
        return Err(VaultError::InsufficientShares);
    }
    if vault.total_shares == 0 {
        return Err(VaultError::InsufficientShares);
    }
    Ok(())
}

/// What a holder is due once the position's fees have been collected.
#[derive(Clone, Copy, Debug, PartialEq, Eq, Structural)]
pub struct Entitlement {
    /// The protocol's fees, with its part of those just collected.
    pub protocol_fees: Balances,
    /// The holder's part of the treasury.
    pub from_treasury: Balances,
    /// The holder's part of the position's liquidity.
    pub liquidity: u128,
}

/// The holder's part of a treasury that holds `balance`, of which `fees` are the
/// protocol's.
pub open spec fn treasury_part(balance: int, fees: int, shares: int, total_shares: int) -> int {
    pro_rata(monus(balance, fees), shares, total_shares)
}

/// The holder's part of the liquidity.
pub open spec fn liquidity_part(liquidity: int, shares: int, total_shares: int) -> int {
    pro_rata(liquidity, shares, total_shares)
}

/// The shares that a withdrawal redeems: all that the holder has.
pub open spec fn redeemed(accounts: WithdrawFromPosition) -> u64 {
    accounts.holder.user_share_account.amount
}

/// Tells how many shares a withdrawal redeems: all that the holder has.
pub fn shares_to_redeem(accounts: &WithdrawFromPosition) -> (r: u64)
    ensures
        r == redeemed(*accounts),
        r == accounts.holder.user_share_account.amount,
{
    accounts.holder.user_share_account.amount
}

/// Shares the fees just collected with the protocol, and works out what the
/// holder is due for all of their shares.
///
/// `before` and `after` are the treasuries before and after collecting. The
/// holder's part is of what is the holders' after the protocol has had its part.
pub fn entitle(
    vault: &Vault,
    accounts: &WithdrawFromPosition,
    before: Balances,
    after: Balances,
) -> (r: Result<Entitlement, VaultError>)
    requires
        vault.total_shares > 0,
    ensures
        ({
            let fees0 = fees_after(
                vault.accumulated_protocol_fees_token0 as int,
                before.token0 as int,
                after.token0 as int,
            );
            let fees1 = fees_after(
                vault.accumulated_protocol_fees_token1 as int,
                before.token1 as int,
                after.token1 as int,
            );
            let total = vault.total_shares as int;
            let shares = redeemed(*accounts) as int;
            let part0 = treasury_part(after.token0 as int, fees0, shares, total);
            let part1 = treasury_part(after.token1 as int, fees1, shares, total);
            let removed = liquidity_part(vault.position_liquidity as int, shares, total);
            r == (if fees0 > u64::MAX || fees1 > u64::MAX || part0 > u64::MAX || part1 > u64::MAX
                || removed > u128::MAX {
                Err::<Entitlement, VaultError>(VaultError::MathOverflow)
            } else {
                Ok::<Entitlement, VaultError>(
                    (Entitlement {
                        protocol_fees: (Balances { token0: fees0 as u64, token1: fees1 as u64 }),
                        from_treasury: (Balances { token0: part0 as u64, token1: part1 as u64 }),
                        liquidity: removed as u128,
                    }),
                )
            })
        }),
{
    let shares: u64 = shares_to_redeem(accounts);
    let total: u128 = vault.total_shares as u128;
    let collected0: u64 = after.token0.saturating_sub(before.token0);
    let collected1: u64 = after.token1.saturating_sub(before.token1);
    let fees0: u64 = match vault.accumulated_protocol_fees_token0.checked_add(
        collected0 / PROTOCOL_FEE_DENOMINATOR,
    ) {
        Some(v) => v,
        None => return Err(VaultError::MathOverflow),
    };
    let fees1: u64 = match vault.accumulated_protocol_fees_token1.checked_add(
        collected1 / PROTOCOL_FEE_DENOMINATOR,
    ) {
        Some(v) => v,
        None => return Err(VaultError::MathOverflow),
    };
    let accessible0: u64 = after.token0.saturating_sub(fees0);
    let accessible1: u64 = after.token1.saturating_sub(fees1);
    proof {
        lemma_mul_u64(accessible0, shares);
        lemma_div_bounds(accessible0 * shares, total as int);
        lemma_mul_u64(accessible1, shares);
        lemma_div_bounds(accessible1 * shares, total as int);
    }
    let part0: u64 = match mul_div(accessible0, shares, total) {
        Some(v) => v,
        None => return Err(VaultError::MathOverflow),
    };
    let part1: u64 = match mul_div(accessible1, shares, total) {
        Some(v) => v,
        None => return Err(VaultError::MathOverflow),
    };
    let liquidity: u128 = match U256::mul_wide(vault.position_liquidity, shares as u128).div(
        total,
    ).to_u128() {
        Some(v) => v,
        None => return Err(VaultError::MathOverflow),
    };
    Ok(
        Entitlement {
            protocol_fees: Balances { token0: fees0, token1: fees1 },
            from_treasury: Balances { token0: part0, token1: part1 },
            liquidity,
        },
    )
}

/// What a holder is paid.
#[derive(Clone, Copy, Debug, PartialEq, Eq, Structural)]
pub struct Payout {
    /// What removing the holder's liquidity brought.
    pub from_position: Balances,
    /// What is paid in all.
    pub total: Balances,
}

/// What a holder is paid in all, if it fits and meets the minimum.
pub open spec fn payout_refusal(total0: int, total1: int, min0: int, min1: int) -> Option<VaultError> {
    if total0 > u64::MAX || total1 > u64::MAX {
        Some(VaultError::MathOverflow)
    } else if total0 < min0 || total1 < min1 {
        Some(VaultError::SlippageExceeded)
    } else {
        None
    }
}

/// Adds what removing the holder's liquidity brought to the holder's part of the
/// treasury. `before` and `after` are the treasuries before and after removing.
pub fn settle(
    entitlement: &Entitlement,
    before: Balances,
    after: Balances,
    min_token0_out: u64,
    min_token1_out: u64,
) -> (r: Result<Payout, VaultError>)
    ensures
        ({
            let position0 = monus(after.token0 as int, before.token0 as int);
            let position1 = monus(after.token1 as int, before.token1 as int);
            let total0 = entitlement.from_treasury.token0 + position0;
            let total1 = entitlement.from_treasury.token1 + position1;
            r == (match payout_refusal(
                total0,
                total1,
                min_token0_out as int,
                min_token1_out as int,
            ) {
                Some(e) => Err::<Payout, VaultError>(e),
                None => Ok::<Payout, VaultError>(
                    (Payout {
                        from_position: (Balances {
                            token0: position0 as u64,
                            token1: position1 as u64,
                        }),
                        total: (Balances { token0: total0 as u64, token1: total1 as u64 }),
                    }),
                ),
            })
        }),
{
    let position0: u64 = after.token0.saturating_sub(before.token0);
    let position1: u64 = after.token1.saturating_sub(before.token1);
    let total0: u64 = match entitlement.from_treasury.token0.checked_add(position0) {
        Some(v) => v,
        None => return Err(VaultError::MathOverflow),
    };
    let total1: u64 = match entitlement.from_treasury.token1.checked_add(position1) {
        Some(v) => v,
        None => return Err(VaultError::MathOverflow),
    };
    if total0 < min_token0_out || total1 < min_token1_out {
        return Err(VaultError::SlippageExceeded);
    }
    Ok(
        Payout {
            from_position: Balances { token0: position0, token1: position1 },
            total: Balances { token0: total0, token1: total1 },
        },
    )
}

/// The vault after a withdrawal that leaves `treasury` in the treasuries.
pub open spec fn vault_after(
    vault: Vault,
    shares: int,
    entitlement: Entitlement,
    payout: Payout,
    treasury: Balances,
) -> Vault {
    Vault {
        accumulated_protocol_fees_token0: entitlement.protocol_fees.token0,
        accumulated_protocol_fees_token1: entitlement.protocol_fees.token1,
        treasury_token0: treasury.token0,
        treasury_token1: treasury.token1,
        position_token0: monus(
            vault.position_token0 as int,
            payout.from_position.token0 as int,
        ) as u64,
        position_token1: monus(
            vault.position_token1 as int,
            payout.from_position.token1 as int,
        ) as u64,
        position_liquidity: monus(
            vault.position_liquidity as int,
            entitlement.liquidity as int,
        ) as u128,
        total_shares: (vault.total_shares - shares) as u64,
        ..vault
    }
}

/// The value of a payout, for the record: token1 as it is, and token0 in token1
/// units of the pool where that fits in 64 bits. In a pool that lists token0
/// second, token0 is the pool's token1, so its amount counts as it is.
pub open spec fn payout_value(payout: Payout, sqrt_price_x64: int, token0_is_pool_token0: bool) -> u64 {
    let token0 = match token1_value(
        sqrt_price_x64,
        payout.total.token0 as int,
        token0_is_pool_token0,
    ) {
        Some(v) => fit_u64_or_zero(v as int),
        None => 0,
    };
    clamp_u64(payout.total.token1 + token0)
}

/// Records a withdrawal that has been paid. `treasury` is what the treasuries
/// hold after it.
pub fn finish(
    vault: &mut Vault,
    user_deposit: &mut UserDeposit,
    accounts: &WithdrawFromPosition,
    entitlement: &Entitlement,
    payout: &Payout,
    treasury: Balances,
    pool: &PoolPrice,
    now: i64,
) -> (r: Result<WithdrawEvent, VaultError>)
    ensures
        if redeemed(*accounts) > old(vault).total_shares {
            &&& r == Err::<WithdrawEvent, VaultError>(VaultError::MathOverflow)
            &&& *final(vault) == *old(vault)
            &&& *final(user_deposit) == *old(user_deposit)
        } else {
            &&& r == Ok::<WithdrawEvent, VaultError>(
                (WithdrawEvent {
                    user: accounts.holder.user,
                    shares_burned: redeemed(*accounts),
                    token0_withdrawn: payout.total.token0,
                    token1_withdrawn: payout.total.token1,
                    withdrawal_value: payout_value(
                        *payout,
                        pool.sqrt_price_x64 as int,
                        pool.token_mint_0 == old(vault).token0_mint,
                    ),
                }),
            )
            &&& *final(vault) == vault_after(
                *old(vault),
                redeemed(*accounts) as int,
                *entitlement,
                *payout,
                treasury,
            )
            &&& *final(user_deposit) == record_after(
                *old(user_deposit),
                redeemed(*accounts) as int,
                now,
            )
        },
{
    let shares: u64 = shares_to_redeem(accounts);
    let remaining_shares: u64 = match vault.total_shares.checked_sub(shares) {
        Some(v) => v,
        None => return Err(VaultError::MathOverflow),
    };
    vault.accumulated_protocol_fees_token0 = entitlement.protocol_fees.token0;
    vault.accumulated_protocol_fees_token1 = entitlement.protocol_fees.token1;
    vault.treasury_token0 = treasury.token0;
    vault.treasury_token1 = treasury.token1;
    vault.position_token0 = vault.position_token0.saturating_sub(payout.from_position.token0);
    vault.position_token1 = vault.position_token1.saturating_sub(payout.from_position.token1);
    vault.position_liquidity = vault.position_liquidity.saturating_sub(entitlement.liquidity);
    vault.total_shares = remaining_shares;
    user_deposit.shares = user_deposit.shares.saturating_sub(shares);
    user_deposit.updated_at = now;
    let token0_is_pool_token0: bool = pool.token_mint_0 == vault.token0_mint;
    let token0_value: u64 = match value_in_token1(
        pool.sqrt_price_x64,
        payout.total.token0,
        token0_is_pool_token0,
    ) {
        Some(v) => if v <= u64::MAX as u128 {
            v as u64
        } else {
            0
        },
        None => 0,
    };
    Ok(
        WithdrawEvent {
            user: accounts.holder.user,
            shares_burned: shares,
            token0_withdrawn: payout.total.token0,
            token1_withdrawn: payout.total.token1,
            withdrawal_value: payout.total.token1.saturating_add(token0_value),
        },
    )
}

/// A withdrawal that goes through redeems the holder's whole balance, which is not
/// nothing: the total falls by exactly that balance, and the record by as much as
/// it holds of it. There is no refusal at the end unless the holder has more
/// shares than there are.
pub proof fn law_whole_balance_is_redeemed(
    vault: Vault,
    user_deposit: UserDeposit,
    accounts: WithdrawFromPosition,
    clmm_program: Pubkey,
    sqrt_price_x64: int,
    obs_data: Seq<u8>,
    entitlement: Entitlement,
    payout: Payout,
    treasury: Balances,
    now: i64,
)
    requires
        refusal(
            vault,
            user_deposit,
            accounts,
            clmm_program,
            sqrt_price_x64,
            obs_data,
        ) is None,
        redeemed(accounts) <= vault.total_shares,
    ensures
        ({
            let balance = accounts.holder.user_share_account.amount;
            let v = vault_after(
                vault,
                redeemed(accounts) as int,
                entitlement,
                payout,
                treasury,
            );
            let d = record_after(user_deposit, redeemed(accounts) as int, now);
            &&& balance > 0
            &&& v.total_shares == vault.total_shares - balance
            &&& d.shares == monus(user_deposit.shares as int, balance as int)
        }),
{
}

} // verus!
