//! What a withdrawal pays and what it leaves.

use crate::accounts::{Balances, HolderAccounts, PoolPrice};
use crate::errors::VaultError;
use crate::events::WithdrawEvent;
use crate::instructions::withdraw;
use crate::instructions::withdraw_from_position;
use crate::instructions::withdraw_from_position::{
    check_accounts, entitle, settle, shares_to_redeem, Entitlement, Payout, WithdrawFromPosition,
};
use crate::laws::{is_quotient, lesser, rest};
use crate::math::lemma_div_bounds;
use crate::oracle::check_feed;
use crate::price::value_in_token1;
use crate::pubkey::Pubkey;
use crate::state::{UserDeposit, Vault};
use vstd::prelude::*;

verus! {

/// A holder's accounts are accepted if and only if the record, the shares and
/// both receiving accounts are the holder's, the shares are of the share mint,
/// and each receiving account is of the mint of its treasury.
pub proof fn law_holder_accounts_are_the_holders(
    accounts: HolderAccounts,
    recorded_user: Pubkey,
    r: Result<(), VaultError>,
)
    requires
        call_ensures(HolderAccounts::check, (&accounts, &recorded_user), r),
    ensures
        match r {
            Ok(()) => {
                &&& accounts.user == recorded_user
                &&& accounts.user == accounts.user_share_account.owner
                &&& accounts.user == accounts.user_token0_account.owner
                &&& accounts.user == accounts.user_token1_account.owner
                &&& accounts.user_share_account.mint == accounts.share_mint
                &&& accounts.user_token0_account.mint == accounts.token0_treasury.mint
                &&& accounts.user_token1_account.mint == accounts.token1_treasury.mint
            },
            Err(VaultError::ConstraintRaw) => {
                ||| accounts.user != recorded_user
                ||| accounts.user != accounts.user_share_account.owner
                ||| accounts.user != accounts.user_token0_account.owner
                ||| accounts.user != accounts.user_token1_account.owner
                ||| accounts.user_share_account.mint != accounts.share_mint
            },
            Err(VaultError::InvalidMint) => {
                ||| accounts.user_token0_account.mint != accounts.token0_treasury.mint
                ||| accounts.user_token1_account.mint != accounts.token1_treasury.mint
            },
            Err(_) => false,
        },
{
}

/// A withdrawal from the treasury pays, of each token, the part of the holders'
/// amount of that token that the holder's shares are of all shares, rounded down.
/// The holders' amount is the treasury without the protocol's fees, and what is
/// recorded in a position, up to 64 bits. What is paid leaves its own treasury,
/// the shares leave the outstanding and the record, and nothing else changes.
pub proof fn law_withdrawal_pays_the_part_of_each_token(
    vault: &mut Vault,
    user_deposit: &mut UserDeposit,
    accounts: HolderAccounts,
    min_token0_out: u64,
    min_token1_out: u64,
    now: i64,
    r: Result<WithdrawEvent, VaultError>,
)
    requires
        call_ensures(
            withdraw::handler,
            (vault, user_deposit, &accounts, min_token0_out, min_token1_out, now),
            r,
        ),
        r is Ok,
    ensures
        ({
            let e = r->Ok_0;
            let shares = accounts.user_share_account.amount;
            let own0 = lesser(
                rest(
                    old(vault).treasury_token0 as int,
                    old(vault).accumulated_protocol_fees_token0 as int,
                ) + old(vault).position_token0,
                u64::MAX as int,
            );
            let own1 = lesser(
                rest(
                    old(vault).treasury_token1 as int,
                    old(vault).accumulated_protocol_fees_token1 as int,
                ) + old(vault).position_token1,
                u64::MAX as int,
            );
            &&& e.user == accounts.user
            &&& e.shares_burned == shares
            &&& e.withdrawal_value == 0
            &&& is_quotient(
                e.token0_withdrawn as int,
                own0 * shares,
                old(vault).total_shares as int,
            )
            &&& is_quotient(
                e.token1_withdrawn as int,
                own1 * shares,
                old(vault).total_shares as int,
            )
            &&& final(vault).treasury_token0 == rest(
                old(vault).treasury_token0 as int,
                e.token0_withdrawn as int,
            )
            &&& final(vault).treasury_token1 == rest(
                old(vault).treasury_token1 as int,
                e.token1_withdrawn as int,
            )
            &&& final(vault).total_shares + shares == old(vault).total_shares
            &&& *final(vault) == (Vault {
                treasury_token0: final(vault).treasury_token0,
                treasury_token1: final(vault).treasury_token1,
                total_shares: final(vault).total_shares,
                ..*old(vault)
            })
            &&& final(user_deposit).shares == rest(
                old(user_deposit).shares as int,
                shares as int,
            )
            &&& final(user_deposit).updated_at == now
            &&& *final(user_deposit) == (UserDeposit {
                shares: final(user_deposit).shares,
                updated_at: final(user_deposit).updated_at,
                ..*old(user_deposit)
            })
        }),
{
    let shares = accounts.user_share_account.amount as int;
    let total = vault.total_shares as int;
    let own0 = lesser(
        rest(vault.treasury_token0 as int, vault.accumulated_protocol_fees_token0 as int)
            + vault.position_token0,
        u64::MAX as int,
    );
    let own1 = lesser(
        rest(vault.treasury_token1 as int, vault.accumulated_protocol_fees_token1 as int)
            + vault.position_token1,
        u64::MAX as int,
    );
    lemma_div_bounds(own0 * shares, total);
    lemma_div_bounds(own1 * shares, total);
    assert(0 <= own0 * shares && 0 <= own1 * shares) by (nonlinear_arith)
        requires
            0 <= own0,
            0 <= own1,
            0 <= shares,
    ;
}

/// A withdrawal from the treasury goes through only where the accounts are the
/// holder's, the vault is not paused and has no position, no rebalance is on that
/// has lasted an hour or less, the holder has shares, each treasury account can
/// pay what is due without touching the protocol's fees, and each token comes to
/// the least asked for. A refused one changes nothing, and its reason is true.
pub proof fn law_withdrawal_is_refused_for_a_reason(
    vault: &mut Vault,
    user_deposit: &mut UserDeposit,
    accounts: HolderAccounts,
    min_token0_out: u64,
    min_token1_out: u64,
    now: i64,
    checked: Result<(), VaultError>,
    paid0: u64,
    paid1: u64,
    r: Result<WithdrawEvent, VaultError>,
)
    requires
        call_ensures(
            withdraw::handler,
            (vault, user_deposit, &accounts, min_token0_out, min_token1_out, now),
            r,
        ),
        call_ensures(HolderAccounts::check, (&accounts, &user_deposit.user), checked),
        vault.total_shares > 0 ==> is_quotient(
            paid0 as int,
            lesser(
                rest(vault.treasury_token0 as int, vault.accumulated_protocol_fees_token0 as int)
                    + vault.position_token0,
                u64::MAX as int,
            ) * accounts.user_share_account.amount,
            vault.total_shares as int,
        ) && is_quotient(
            paid1 as int,
            lesser(
                rest(vault.treasury_token1 as int, vault.accumulated_protocol_fees_token1 as int)
                    + vault.position_token1,
                u64::MAX as int,
            ) * accounts.user_share_account.amount,
            vault.total_shares as int,
        ),
    ensures
        ({
            let v = *old(vault);
            let shares = accounts.user_share_account.amount;
            let waiting = v.is_rebalancing && (v.rebalance_started_at <= 0 || now
                <= v.rebalance_started_at + 3_600);
            let payable0 = paid0 <= rest(
                accounts.token0_treasury.amount as int,
                v.accumulated_protocol_fees_token0 as int,
            );
            let payable1 = paid1 <= rest(
                accounts.token1_treasury.amount as int,
                v.accumulated_protocol_fees_token1 as int,
            );
            match r {
                Ok(e) => {
                    &&& checked is Ok
                    &&& !v.is_paused
                    &&& !v.has_active_position
                    &&& !waiting
                    &&& 0 < shares <= v.total_shares
                    &&& payable0 && payable1
                    &&& paid0 >= min_token0_out
                    &&& paid1 >= min_token1_out
                },
                Err(e) => {
                    &&& *final(vault) == v
                    &&& *final(user_deposit) == *old(user_deposit)
                    &&& match e {
                        VaultError::VaultPaused => v.is_paused,
                        VaultError::PositionAlreadyExists => v.has_active_position,
                        VaultError::RebalancingInProgress => waiting,
                        VaultError::InsufficientShares => shares == 0 || v.total_shares == 0,
                        VaultError::WithdrawalExceedsTreasury => !payable0 || !payable1,
                        VaultError::SlippageExceeded => paid0 < min_token0_out || paid1
                            < min_token1_out,
                        VaultError::MathOverflow => shares > v.total_shares,
                        _ => checked == Err::<(), VaultError>(e),
                    }
                },
            }
        }),
{
    let shares = accounts.user_share_account.amount as int;
    let total = vault.total_shares as int;
    if total > 0 {
        let own0 = lesser(
            rest(vault.treasury_token0 as int, vault.accumulated_protocol_fees_token0 as int)
                + vault.position_token0,
            u64::MAX as int,
        );
        let own1 = lesser(
            rest(vault.treasury_token1 as int, vault.accumulated_protocol_fees_token1 as int)
                + vault.position_token1,
            u64::MAX as int,
        );
        crate::math::lemma_div_unique(own0 * shares, total, paid0 as int);
        crate::math::lemma_div_unique(own1 * shares, total, paid1 as int);
    }
}

/// A withdrawal redeems as many shares as the holder's account holds.
pub proof fn law_all_shares_are_redeemed(accounts: WithdrawFromPosition, r: u64)
    requires
        call_ensures(shares_to_redeem, (&accounts,), r),
    ensures
        r == accounts.holder.user_share_account.amount,
{
}

/// The accounts of a withdrawal from a position are accepted if and only if there
/// is a position, the holder's accounts are the holder's, the pool is the
/// vault's, and the vault holds the one token of the position, whose record names
/// that pool.
pub proof fn law_position_withdrawal_accounts_belong_together(
    vault: Vault,
    user_deposit: UserDeposit,
    accounts: WithdrawFromPosition,
    checked: Result<(), VaultError>,
    r: Result<(), VaultError>,
)
    requires
        call_ensures(check_accounts, (&vault, &user_deposit, &accounts), r),
        call_ensures(HolderAccounts::check, (&accounts.holder, &user_deposit.user), checked),
    ensures
        ({
            let p = accounts.position;
            match r {
                Ok(()) => {
                    &&& vault.has_active_position
                    &&& checked is Ok
                    &&& p.pool_state == vault.pool_id
                    &&& p.personal_position_pool_id == vault.pool_id
                    &&& p.position_nft_account.amount == 1
                    &&& p.position_nft_account.mint == vault.position_mint
                    &&& p.position_nft_account.owner == accounts.vault
                },
                Err(VaultError::NoActivePosition) => !vault.has_active_position,
                Err(VaultError::InvalidPriceFeed) => p.pool_state != vault.pool_id,
                Err(VaultError::InvalidPosition) => {
                    ||| p.position_nft_account.mint != vault.position_mint
                    ||| p.position_nft_account.owner != accounts.vault
                },
                Err(e) => {
                    ||| checked == Err::<(), VaultError>(e)
                    ||| e == VaultError::ConstraintRaw && (p.position_nft_account.amount != 1
                        || p.personal_position_pool_id != p.pool_state)
                },
            }
        }),
{
}

/// A withdrawal from a position begins if and only if its accounts are accepted,
/// the spot price agrees with the oracle within five percent of its root, and
/// there are shares to redeem.
pub proof fn law_position_withdrawal_is_refused_for_a_reason(
    vault: Vault,
    user_deposit: UserDeposit,
    accounts: WithdrawFromPosition,
    clmm_program: Pubkey,
    sqrt_price_x64: u128,
    obs_data: &[u8],
    checked: Result<(), VaultError>,
    feed: Result<(), VaultError>,
    r: Result<(), VaultError>,
)
    requires
        call_ensures(
            withdraw_from_position::begin,
            (&vault, &user_deposit, &accounts, &clmm_program, sqrt_price_x64, obs_data),
            r,
        ),
        call_ensures(check_accounts, (&vault, &user_deposit, &accounts), checked),
        call_ensures(
            check_feed,
            (
                &vault.pool_id,
                &accounts.observation_owner,
                &clmm_program,
                sqrt_price_x64,
                obs_data,
                true,
                500u128,
            ),
            feed,
        ),
    ensures
        match r {
            Ok(()) => {
                &&& checked is Ok
                &&& feed is Ok
                &&& accounts.holder.user_share_account.amount > 0
                &&& vault.total_shares > 0
            },
            Err(e) => {
                ||| checked == r
                ||| checked is Ok && feed == r
                ||| e == VaultError::InsufficientShares && (
                accounts.holder.user_share_account.amount == 0 || vault.total_shares == 0)
            },
        },
{
}

/// Of what collecting brought into each treasury, a tenth, rounded down, joins the
/// protocol's fees of that token. The holder is due, of each treasury without
/// those fees and of the liquidity, the part that the holder's shares are of all
/// shares, rounded down.
pub proof fn law_entitlement_is_the_part_of_each_token(
    vault: Vault,
    accounts: WithdrawFromPosition,
    before: Balances,
    after: Balances,
    r: Result<Entitlement, VaultError>,
)
    requires
        vault.total_shares > 0,
        call_ensures(entitle, (&vault, &accounts, before, after), r),
        r is Ok,
    ensures
        ({
            let e = r->Ok_0;
            let shares = accounts.holder.user_share_account.amount;
            let total = vault.total_shares as int;
            let collected0 = rest(after.token0 as int, before.token0 as int);
            let collected1 = rest(after.token1 as int, before.token1 as int);
            let tenth0 = e.protocol_fees.token0 - vault.accumulated_protocol_fees_token0;
            let tenth1 = e.protocol_fees.token1 - vault.accumulated_protocol_fees_token1;
            &&& is_quotient(tenth0, collected0, 10)
            &&& is_quotient(tenth1, collected1, 10)
            &&& is_quotient(
                e.from_treasury.token0 as int,
                rest(after.token0 as int, e.protocol_fees.token0 as int) * shares,
                total,
            )
            &&& is_quotient(
                e.from_treasury.token1 as int,
                rest(after.token1 as int, e.protocol_fees.token1 as int) * shares,
                total,
            )
            &&& is_quotient(e.liquidity as int, vault.position_liquidity * shares, total)
        }),
{
    let e = r->Ok_0;
    let shares = accounts.holder.user_share_account.amount as int;
    let total = vault.total_shares as int;
    let held0 = rest(after.token0 as int, e.protocol_fees.token0 as int);
    let held1 = rest(after.token1 as int, e.protocol_fees.token1 as int);
    let placed = vault.position_liquidity as int;
    assert(0 <= held0 * shares && 0 <= held1 * shares && 0 <= placed * shares) by (nonlinear_arith)
        requires
            0 <= held0,
            0 <= held1,
            0 <= placed,
            0 <= shares,
    ;
    lemma_div_bounds(held0 * shares, total);
    lemma_div_bounds(held1 * shares, total);
    lemma_div_bounds(placed * shares, total);
}

/// A holder who has no more shares than there are is owed their part, unless the
/// protocol's fees of a token do not fit in 64 bits.
pub proof fn law_entitlement_is_owed(
    vault: Vault,
    accounts: WithdrawFromPosition,
    before: Balances,
    after: Balances,
    r: Result<Entitlement, VaultError>,
)
    requires
        0 < vault.total_shares,
        accounts.holder.user_share_account.amount <= vault.total_shares,
        call_ensures(entitle, (&vault, &accounts, before, after), r),
    ensures
        r is Ok <==> vault.accumulated_protocol_fees_token0 + rest(
            after.token0 as int,
            before.token0 as int,
        ) / 10 <= u64::MAX && vault.accumulated_protocol_fees_token1 + rest(
            after.token1 as int,
            before.token1 as int,
        ) / 10 <= u64::MAX,
        r is Err ==> r->Err_0 == VaultError::MathOverflow,
{
    let shares = accounts.holder.user_share_account.amount as int;
    let total = vault.total_shares as int;
    let fees0 = vault.accumulated_protocol_fees_token0 + rest(
        after.token0 as int,
        before.token0 as int,
    ) / 10;
    let fees1 = vault.accumulated_protocol_fees_token1 + rest(
        after.token1 as int,
        before.token1 as int,
    ) / 10;
    crate::laws::law_redemption_does_not_dilute(rest(after.token0 as int, fees0), shares, total);
    crate::laws::law_redemption_does_not_dilute(rest(after.token1 as int, fees1), shares, total);
    crate::laws::law_redemption_does_not_dilute(vault.position_liquidity as int, shares, total);
}

/// A payout is, of each token, the part of the treasury and what removing the
/// liquidity brought into the same treasury. It is refused only where one does
/// not fit in 64 bits or is less than was asked for of that token.
pub proof fn law_payout_adds_each_token(
    entitlement: Entitlement,
    before: Balances,
    after: Balances,
    min_token0_out: u64,
    min_token1_out: u64,
    r: Result<Payout, VaultError>,
)
    requires
        call_ensures(settle, (&entitlement, before, after, min_token0_out, min_token1_out), r),
    ensures
        ({
            let brought0 = rest(after.token0 as int, before.token0 as int);
            let brought1 = rest(after.token1 as int, before.token1 as int);
            let total0 = entitlement.from_treasury.token0 + brought0;
            let total1 = entitlement.from_treasury.token1 + brought1;
            match r {
                Ok(payout) => {
                    &&& payout.from_position.token0 == brought0
                    &&& payout.from_position.token1 == brought1
                    &&& payout.total.token0 == total0
                    &&& payout.total.token1 == total1
                    &&& total0 >= min_token0_out
                    &&& total1 >= min_token1_out
                },
                Err(VaultError::MathOverflow) => total0 > u64::MAX || total1 > u64::MAX,
                Err(VaultError::SlippageExceeded) => total0 < min_token0_out || total1
                    < min_token1_out,
                Err(_) => false,
            }
        }),
{
}

/// A withdrawal from a position takes the shares off the outstanding and the
/// record, what the position paid of each token off what it is recorded to hold
/// of it, and the liquidity off the position's. The treasuries are recorded as
/// they stand after it, and the fees as the entitlement says. Nothing else
/// changes. It is refused, and changes nothing, only where the holder has more
/// shares than there are.
pub proof fn law_position_withdrawal_is_recorded(
    vault: &mut Vault,
    user_deposit: &mut UserDeposit,
    accounts: WithdrawFromPosition,
    entitlement: Entitlement,
    payout: Payout,
    treasury: Balances,
    pool: PoolPrice,
    now: i64,
    token0_value: Option<u128>,
    r: Result<WithdrawEvent, VaultError>,
)
    requires
        call_ensures(
            withdraw_from_position::finish,
            (vault, user_deposit, &accounts, &entitlement, &payout, treasury, &pool, now),
            r,
        ),
        call_ensures(
            value_in_token1,
            (pool.sqrt_price_x64, payout.total.token0, pool.token_mint_0 == vault.token0_mint),
            token0_value,
        ),
    ensures
        ({
            let shares = accounts.holder.user_share_account.amount;
            match r {
                Ok(e) => {
                    &&& final(vault).total_shares + shares == old(vault).total_shares
                    &&& final(vault).treasury_token0 == treasury.token0
                    &&& final(vault).treasury_token1 == treasury.token1
                    &&& final(vault).accumulated_protocol_fees_token0
                        == entitlement.protocol_fees.token0
                    &&& final(vault).accumulated_protocol_fees_token1
                        == entitlement.protocol_fees.token1
                    &&& final(vault).position_token0 == rest(
                        old(vault).position_token0 as int,
                        payout.from_position.token0 as int,
                    )
                    &&& final(vault).position_token1 == rest(
                        old(vault).position_token1 as int,
                        payout.from_position.token1 as int,
                    )
                    &&& final(vault).position_liquidity == rest(
                        old(vault).position_liquidity as int,
                        entitlement.liquidity as int,
                    )
                    &&& *final(vault) == (Vault {
                        total_shares: final(vault).total_shares,
                        treasury_token0: final(vault).treasury_token0,
                        treasury_token1: final(vault).treasury_token1,
                        accumulated_protocol_fees_token0: final(
                            vault
                        ).accumulated_protocol_fees_token0,
                        accumulated_protocol_fees_token1: final(
                            vault
                        ).accumulated_protocol_fees_token1,
                        position_token0: final(vault).position_token0,
                        position_token1: final(vault).position_token1,
                        position_liquidity: final(vault).position_liquidity,
                        ..*old(vault)
                    })
                    &&& final(user_deposit).shares == rest(
                        old(user_deposit).shares as int,
                        shares as int,
                    )
                    &&& final(user_deposit).updated_at == now
                    &&& *final(user_deposit) == (UserDeposit {
                        shares: final(user_deposit).shares,
                        updated_at: final(user_deposit).updated_at,
                        ..*old(user_deposit)
                    })
                    &&& e.user == accounts.holder.user
                    &&& e.shares_burned == shares
                    &&& e.token0_withdrawn == payout.total.token0
                    &&& e.token1_withdrawn == payout.total.token1
                    &&& e.withdrawal_value == lesser(
                        payout.total.token1 + match token0_value {
                            Some(v) => if v <= u64::MAX {
                                v as int
                            } else {
                                0
                            },
                            None => 0,
                        },
                        u64::MAX as int,
                    )
                },
                Err(e) => {
                    &&& e == VaultError::MathOverflow
                    &&& shares > old(vault).total_shares
                    &&& *final(vault) == *old(vault)
                    &&& *final(user_deposit) == *old(user_deposit)
                },
            }
        }),
{
}

/// From one end to the other, a withdrawal from a position leaves in each treasury
/// no less than the protocol's fees of that token and the other holders' part,
/// where the treasuries held the fees at first, collecting and removing took
/// nothing from them, and the payout is what left them.
pub proof fn law_position_withdrawal_spares_the_others(
    vault: Vault,
    accounts: WithdrawFromPosition,
    before: Balances,
    collected: Balances,
    removed: Balances,
    min_token0_out: u64,
    min_token1_out: u64,
    entitled: Result<Entitlement, VaultError>,
    settled: Result<Payout, VaultError>,
)
    requires
        0 < vault.total_shares,
        accounts.holder.user_share_account.amount <= vault.total_shares,
        vault.accumulated_protocol_fees_token0 <= before.token0 <= collected.token0
            <= removed.token0,
        vault.accumulated_protocol_fees_token1 <= before.token1 <= collected.token1
            <= removed.token1,
        call_ensures(entitle, (&vault, &accounts, before, collected), entitled),
        entitled is Ok,
        call_ensures(
            settle,
            (&entitled->Ok_0, collected, removed, min_token0_out, min_token1_out),
            settled,
        ),
        settled is Ok,
    ensures
        ({
            let total = vault.total_shares as int;
            let others = total - accounts.holder.user_share_account.amount;
            let fees = entitled->Ok_0.protocol_fees;
            let paid = settled->Ok_0.total;
            &&& fees.token0 <= removed.token0 - paid.token0
            &&& fees.token1 <= removed.token1 - paid.token1
            &&& (collected.token0 - fees.token0) * others <= (removed.token0 - paid.token0
                - fees.token0) * total
            &&& (collected.token1 - fees.token1) * others <= (removed.token1 - paid.token1
                - fees.token1) * total
        }),
{
    law_entitlement_is_the_part_of_each_token(vault, accounts, before, collected, entitled);
    law_payout_adds_each_token(
        entitled->Ok_0,
        collected,
        removed,
        min_token0_out,
        min_token1_out,
        settled,
    );
    let total = vault.total_shares as int;
    let shares = accounts.holder.user_share_account.amount as int;
    let fees = entitled->Ok_0.protocol_fees;
    let held0 = collected.token0 - fees.token0;
    let held1 = collected.token1 - fees.token1;
    crate::math::lemma_div_unique(
        held0 * shares,
        total,
        entitled->Ok_0.from_treasury.token0 as int,
    );
    crate::math::lemma_div_unique(
        held1 * shares,
        total,
        entitled->Ok_0.from_treasury.token1 as int,
    );
    crate::laws::law_redemption_does_not_dilute(held0, shares, total);
    crate::laws::law_redemption_does_not_dilute(held1, shares, total);
}

} // verus!
