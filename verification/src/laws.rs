//! What holds of the vault as a whole.

use crate::accounts::Balances;
use crate::constants::DEAD_SHARES;
use crate::instructions::deposit;
use crate::instructions::deposit::{DepositAccounts, DepositRequest};
use crate::instructions::open_position;
use crate::instructions::open_position::OpenRequest;
use crate::instructions::rebalance::rebalancing_since;
use crate::instructions::withdraw;
use crate::instructions::withdraw::{due, holdings, rebalance_blocks, Withdraw};
use crate::instructions::withdraw_from_position;
use crate::instructions::withdraw_from_position::{
    liquidity_part, treasury_part, WithdrawFromPosition,
};
use crate::math::{lemma_div_bounds, lemma_div_mono, lemma_div_unique};
use crate::pubkey::Pubkey;
use crate::state::{pro_rata, shares_for, UserDeposit, Vault};
use vstd::prelude::*;

pub mod amounts;
pub mod arithmetic;
pub mod callable;
pub mod deposits;
pub mod fees;
pub mod governance;
pub mod guards;
pub mod managed;
pub mod migrations;
pub mod openings;
pub mod order;
pub mod pricing;
pub mod swaps;
pub mod valuation;
pub mod withdrawals;

verus! {

/// `q` is `n` divided by `d`, rounded down.
pub open spec fn is_quotient(q: int, n: int, d: int) -> bool {
    q * d <= n < q * d + d
}

/// The smaller of two numbers.
pub open spec fn lesser(a: int, b: int) -> int {
    if a <= b {
        a
    } else {
        b
    }
}

/// What is left of `a` when up to `b` is taken away.
pub open spec fn rest(a: int, b: int) -> int {
    a - lesser(a, b)
}

/// A deposit mints in proportion, rather than starting afresh.
pub open spec fn is_proportional(value: int, total_shares: int, tvl: int) -> bool {
    total_shares > DEAD_SHARES && tvl > 0 && value * total_shares / tvl <= u64::MAX
}

/// A deposit dilutes nobody: what a share is worth does not fall. This is of
/// deposits that mint in proportion. One into a vault without holders, or whose
/// worth has collapsed, starts afresh at one share per unit.
pub proof fn law_deposit_does_not_dilute(value: int, total_shares: int, tvl: int)
    requires
        value >= 0,
        is_proportional(value, total_shares, tvl),
    ensures
        ({
            let shares = shares_for(value, total_shares, tvl);
            tvl * (total_shares + shares) <= (tvl + value) * total_shares
        }),
{
    let shares = shares_for(value, total_shares, tvl);
    lemma_div_bounds(value * total_shares, tvl);
    assert(tvl * (total_shares + shares) <= (tvl + value) * total_shares) by (nonlinear_arith)
        requires
            shares * tvl <= value * total_shares,
    ;
}

/// Depositing and redeeming at once gains nothing.
pub proof fn law_deposit_and_redeem_gains_nothing(value: int, total_shares: int, tvl: int)
    requires
        value >= 0,
        is_proportional(value, total_shares, tvl),
    ensures
        ({
            let shares = shares_for(value, total_shares, tvl);
            pro_rata(tvl + value, shares, total_shares + shares) <= value
        }),
{
    let shares = shares_for(value, total_shares, tvl);
    lemma_div_bounds(value * total_shares, tvl);
    assert((tvl + value) * shares <= value * (total_shares + shares)) by (nonlinear_arith)
        requires
            shares * tvl <= value * total_shares,
    ;
    lemma_div_mono((tvl + value) * shares, value * (total_shares + shares), total_shares + shares);
    lemma_div_unique(value * (total_shares + shares), total_shares + shares, value);
}

/// Depositing and redeeming at once loses, to rounding, less than two units and
/// what one share is worth.
pub proof fn law_deposit_and_redeem_loses_rounding_only(value: int, total_shares: int, tvl: int)
    requires
        value >= 0,
        is_proportional(value, total_shares, tvl),
    ensures
        ({
            let shares = shares_for(value, total_shares, tvl);
            let back = pro_rata(tvl + value, shares, total_shares + shares);
            (value - back - 1) * (total_shares + shares) < tvl
        }),
{
    let shares = shares_for(value, total_shares, tvl);
    lemma_div_bounds(value * total_shares, tvl);
    let back = pro_rata(tvl + value, shares, total_shares + shares);
    lemma_div_bounds((tvl + value) * shares, total_shares + shares);
    assert((value - back - 1) * (total_shares + shares) < tvl) by (nonlinear_arith)
        requires
            value * total_shares < shares * tvl + tvl,
            (tvl + value) * shares < back * (total_shares + shares) + (total_shares + shares),
    ;
}

/// The first depositor gets one share per unit of value and, redeeming at once,
/// loses no more than the dead shares.
pub proof fn law_first_depositor_loses_dead_shares_at_most(vault: Vault, value: int, tvl: int)
    requires
        vault.total_shares == 0,
        value >= 0,
    ensures
        shares_for(value, 0, tvl) == value,
        deposit::dead_shares(vault) == DEAD_SHARES,
        value - DEAD_SHARES <= pro_rata(value, value, value + DEAD_SHARES) <= value,
{
    let d = DEAD_SHARES as int;
    let total = value + d;
    assert((value - d) * total <= value * value) by (nonlinear_arith)
        requires
            total == value + d,
    ;
    assert(value * value <= value * total) by (nonlinear_arith)
        requires
            total == value + d,
            value >= 0,
            d >= 0,
    ;
    lemma_div_mono((value - d) * total, value * value, total);
    lemma_div_unique((value - d) * total, total, value - d);
    lemma_div_mono(value * value, value * total, total);
    lemma_div_unique(value * total, total, value);
}

/// A first deposit loses at most one part in a hundred to the dead shares,
/// because it must be large enough.
pub proof fn law_first_deposit_loss_is_negligible(
    vault: Vault,
    record: UserDeposit,
    amounts: Balances,
    value: int,
    tvl: int,
    min_shares_out: int,
)
    requires
        vault.total_shares == 0,
        value >= 0,
        deposit::credit_refusal(vault, record, amounts, value, tvl, min_shares_out) is None,
    ensures
        100 * (value - pro_rata(value, value, value + DEAD_SHARES)) <= value,
{
    law_first_depositor_loses_dead_shares_at_most(vault, value, tvl);
}

/// What is left after `shares` of `total_shares` have taken their part of `held`
/// is worth no less per share than before.
pub proof fn law_redemption_does_not_dilute(held: int, shares: int, total_shares: int)
    requires
        0 <= held,
        0 <= shares <= total_shares,
        total_shares > 0,
    ensures
        0 <= pro_rata(held, shares, total_shares) <= held,
        held * (total_shares - shares) <= (held - pro_rata(held, shares, total_shares))
            * total_shares,
{
    let part = pro_rata(held, shares, total_shares);
    assert(0 <= held * shares <= held * total_shares) by (nonlinear_arith)
        requires
            0 <= held,
            0 <= shares <= total_shares,
    ;
    lemma_div_bounds(held * shares, total_shares);
    lemma_div_mono(held * shares, held * total_shares, total_shares);
    lemma_div_unique(held * total_shares, total_shares, held);
    assert(held * (total_shares - shares) <= (held - part) * total_shares) by (nonlinear_arith)
        requires
            part * total_shares <= held * shares,
    ;
}

/// Whoever redeems second gets no less than redeeming first would have given.
pub proof fn law_later_holder_is_not_shorted(held: int, first: int, second: int, total_shares: int)
    requires
        0 <= held,
        0 <= first,
        0 <= second,
        first + second <= total_shares,
        first < total_shares,
    ensures
        ({
            let left = held - pro_rata(held, first, total_shares);
            pro_rata(left, second, total_shares - first) >= pro_rata(held, second, total_shares)
        }),
{
    let left = held - pro_rata(held, first, total_shares);
    let rest = total_shares - first;
    let fair = pro_rata(held, second, total_shares);
    law_redemption_does_not_dilute(held, first, total_shares);
    assert(held * second >= 0) by (nonlinear_arith)
        requires
            held >= 0,
            second >= 0,
    ;
    lemma_div_bounds(held * second, total_shares);
    assert((fair * rest) * total_shares <= (left * second) * total_shares) by (nonlinear_arith)
        requires
            fair * total_shares <= held * second,
            held * rest <= left * total_shares,
            rest >= 0,
            second >= 0,
    ;
    assert(fair * rest <= left * second) by (nonlinear_arith)
        requires
            (fair * rest) * total_shares <= (left * second) * total_shares,
            total_shares > 0,
    ;
    lemma_div_mono(fair * rest, left * second, rest);
    lemma_div_unique(fair * rest, rest, fair);
}

/// The recorded treasuries are what the accounts hold, and what the holders own
/// fits in 64 bits.
pub open spec fn books_match(vault: Vault, accounts: Withdraw) -> bool {
    &&& vault.covers_fees()
    &&& vault.treasury_token0 == accounts.token0_treasury.amount
    &&& vault.treasury_token1 == accounts.token1_treasury.amount
    &&& vault.user_token0() + vault.position_token0 <= u64::MAX
    &&& vault.user_token1() + vault.position_token1 <= u64::MAX
}

/// A withdrawal from the treasury leaves the protocol's fees covered, takes from
/// the holdings exactly what is due, and leaves the other holders with no less
/// per share.
pub proof fn law_withdrawal_is_fair(
    vault: Vault,
    user_deposit: UserDeposit,
    accounts: Withdraw,
    min_token0_out: int,
    min_token1_out: int,
    now: int,
)
    requires
        withdraw::refusal(
            vault,
            user_deposit,
            accounts,
            min_token0_out,
            min_token1_out,
            now,
        ) is None,
        books_match(vault, accounts),
    ensures
        ({
            let shares = accounts.user_share_account.amount as int;
            let paid = due(vault, shares);
            let v = withdraw::vault_after(vault, shares);
            &&& v.covers_fees()
            &&& v.accumulated_protocol_fees_token0 == vault.accumulated_protocol_fees_token0
            &&& v.accumulated_protocol_fees_token1 == vault.accumulated_protocol_fees_token1
            &&& v.total_shares == vault.total_shares - shares
            &&& holdings(v).0 == holdings(vault).0 - paid.0
            &&& holdings(v).1 == holdings(vault).1 - paid.1
            &&& holdings(vault).0 * v.total_shares <= holdings(v).0 * vault.total_shares
            &&& holdings(vault).1 * v.total_shares <= holdings(v).1 * vault.total_shares
        }),
{
    let shares = accounts.user_share_account.amount as int;
    law_redemption_does_not_dilute(holdings(vault).0, shares, vault.total_shares as int);
    law_redemption_does_not_dilute(holdings(vault).1, shares, vault.total_shares as int);
}

/// A withdrawal from the position takes no more of a treasury than the holders
/// have there, leaves the protocol its part, and leaves the other holders no less
/// of the treasury and of the liquidity per share. `balance` is what a treasury
/// holds once the fees are collected, and `fees` are the protocol's of it.
pub proof fn law_position_withdrawal_is_fair(
    balance: int,
    fees: int,
    liquidity: int,
    shares: int,
    total_shares: int,
)
    requires
        0 <= fees <= balance,
        0 <= liquidity,
        0 <= shares <= total_shares,
        total_shares > 0,
    ensures
        ({
            let part = treasury_part(balance, fees, shares, total_shares);
            let removed = liquidity_part(liquidity, shares, total_shares);
            &&& fees <= balance - part
            &&& (balance - fees) * (total_shares - shares) <= (balance - part - fees) * total_shares
            &&& 0 <= removed <= liquidity
            &&& liquidity * (total_shares - shares) <= (liquidity - removed) * total_shares
        }),
{
    law_redemption_does_not_dilute(balance - fees, shares, total_shares);
    law_redemption_does_not_dilute(liquidity, shares, total_shares);
}

/// Whoever redeems from a position gets their part of the fees just collected
/// and no more: of fees collected, the protocol has its tenth, and the holder's
/// treasury part rises by no more than the holder's part of the rest, give or
/// take a unit of rounding.
pub proof fn law_redeemer_gets_only_a_part_of_fees(
    balance: int,
    recorded: int,
    fees: int,
    shares: int,
    total_shares: int,
)
    requires
        0 <= recorded <= balance,
        0 <= fees,
        0 <= shares <= total_shares,
        total_shares > 0,
    ensures
        ({
            let before = treasury_part(balance, recorded, shares, total_shares);
            let after = treasury_part(
                balance + fees,
                recorded + fees / 10,
                shares,
                total_shares,
            );
            after <= before + pro_rata(fees - fees / 10, shares, total_shares) + 1
        }),
{
    let old_held = balance - recorded;
    let kept = fees - fees / 10;
    let a = old_held * shares;
    let b = kept * shares;
    assert((old_held + kept) * shares == a + b) by (nonlinear_arith)
        requires
            a == old_held * shares,
            b == kept * shares,
    ;
    lemma_div_bounds(a, total_shares);
    lemma_div_bounds(b, total_shares);
    lemma_div_bounds(a + b, total_shares);
    let q = (a + b) / total_shares;
    let qa = a / total_shares;
    let qb = b / total_shares;
    assert(q <= qa + qb + 1) by (nonlinear_arith)
        requires
            q * total_shares <= a + b,
            a < qa * total_shares + total_shares,
            b < qb * total_shares + total_shares,
            total_shares > 0,
    ;
}

/// A pause does not keep anyone from redeeming out of a position.
pub proof fn law_pause_does_not_block_position_withdrawals(
    vault: Vault,
    paused: bool,
    user_deposit: UserDeposit,
    accounts: WithdrawFromPosition,
    clmm_program: Pubkey,
    sqrt_price_x64: int,
    obs_data: Seq<u8>,
)
    ensures
        withdraw_from_position::refusal(
            Vault { is_paused: paused, ..vault },
            user_deposit,
            accounts,
            clmm_program,
            sqrt_price_x64,
            obs_data,
        ) == withdraw_from_position::refusal(
            vault,
            user_deposit,
            accounts,
            clmm_program,
            sqrt_price_x64,
            obs_data,
        ),
{
}

/// A pause keeps everyone from depositing and from withdrawing out of the
/// treasury, and so does a rebalance from depositing.
pub proof fn law_pause_stops_deposits(
    vault: Vault,
    accounts: DepositAccounts,
    mint: Pubkey,
    request: DepositRequest,
    clmm_program: Pubkey,
    user_deposit: UserDeposit,
    holder: Withdraw,
    min_token0_out: int,
    min_token1_out: int,
    now: int,
)
    ensures
        vault.is_paused || vault.is_rebalancing ==> deposit::request_refusal(
            vault,
            accounts,
            mint,
            request,
            clmm_program,
        ) is Some,
        vault.is_paused ==> withdraw::refusal(
            vault,
            user_deposit,
            holder,
            min_token0_out,
            min_token1_out,
            now,
        ) is Some,
{
}

/// A rebalance ends when the next position is opened: deposits and withdrawals
/// are no longer held up by it.
pub proof fn law_opening_ends_the_rebalance(
    vault: Vault,
    started: i64,
    position_mint: Pubkey,
    request: OpenRequest,
    liquidity: u128,
    before: Balances,
    after: Balances,
    now: int,
)
    ensures
        ({
            let v = open_position::vault_after(
                rebalancing_since(vault, started),
                position_mint,
                request,
                liquidity,
                before,
                after,
            );
            &&& !v.is_rebalancing
            &&& v.rebalance_started_at == 0
            &&& !rebalance_blocks(v, now)
            &&& v.has_active_position
        }),
{
}

/// A deposit changes nothing of what belongs to the protocol, and adds what was
/// deposited to what belongs to the holders.
pub proof fn law_deposit_goes_to_the_holders(vault: Vault, amounts: Balances, shares: int)
    requires
        vault.covers_fees(),
        vault.treasury_token0 + amounts.token0 <= u64::MAX,
        vault.treasury_token1 + amounts.token1 <= u64::MAX,
    ensures
        ({
            let v = deposit::vault_after(vault, amounts, shares);
            &&& v.covers_fees()
            &&& v.accumulated_protocol_fees_token0 == vault.accumulated_protocol_fees_token0
            &&& v.accumulated_protocol_fees_token1 == vault.accumulated_protocol_fees_token1
            &&& v.user_token0() == vault.user_token0() + amounts.token0
            &&& v.user_token1() == vault.user_token1() + amounts.token1
        }),
{
}

} // verus!
