//! What a vault and a deposit are worth.

use crate::accounts::PersonalPosition;
use crate::errors::VaultError;
use crate::instructions::deposit::{add_value, least_deposit, value_vault, DepositQuote};
use crate::laws::{is_quotient, lesser, rest};
use crate::liquidity::calculate_position_amounts;
use crate::math::{lemma_div_bounds, lemma_div_unique, lemma_pow10_values};
use crate::state::{shares_for_deposit, Vault};
use vstd::arithmetic::power::{lemma_pow_adds, lemma_pow_positive, pow};
use vstd::prelude::*;

verus! {

/// A vault's worth is its token0 at the price of a whole token, rounded down,
/// and its token1 as it is. Of each token it counts the treasury and the amount
/// given for the position, less the protocol's fees in that token. The sums stop
/// at 64 bits, and token0 whose value goes beyond them counts for nothing.
pub proof fn law_worth_prices_each_token_as_itself(
    vault: Vault,
    price: u64,
    position_token0: u64,
    position_token1: u64,
    r: u64,
)
    requires
        call_ensures(
            Vault::calculate_tvl_with_position,
            (&vault, price, position_token0, position_token1),
            r,
        ),
    ensures
        ({
            let max = u64::MAX as int;
            let own0 = rest(
                lesser(vault.treasury_token0 + position_token0, max),
                vault.accumulated_protocol_fees_token0 as int,
            );
            let own1 = rest(
                lesser(vault.treasury_token1 + position_token1, max),
                vault.accumulated_protocol_fees_token1 as int,
            );
            exists|value0: int|
                {
                    &&& #[trigger] is_quotient(
                        value0,
                        own0 * price,
                        pow(10, vault.token0_decimals as nat),
                    )
                    &&& r == lesser(
                        own1 + if value0 <= max {
                            value0
                        } else {
                            0
                        },
                        max,
                    )
                }
        }),
{
    let max = u64::MAX as int;
    let own0 = rest(
        lesser(vault.treasury_token0 + position_token0, max),
        vault.accumulated_protocol_fees_token0 as int,
    );
    let scale = pow(10, vault.token0_decimals as nat);
    lemma_pow_positive(10, vault.token0_decimals as nat);
    lemma_div_bounds(own0 * price, scale);
    assert(own0 * price >= 0) by (nonlinear_arith)
        requires
            own0 >= 0,
            price >= 0,
    ;
    assert(is_quotient(own0 * price / scale, own0 * price, scale));
}

/// The worth with the position as last recorded is the worth with those amounts.
pub proof fn law_recorded_position_counts(vault: Vault, price: u64, r: u64, s: u64)
    requires
        call_ensures(Vault::calculate_tvl, (&vault, price), r),
        call_ensures(
            Vault::calculate_tvl_with_position,
            (&vault, price, vault.position_token0, vault.position_token1),
            s,
        ),
    ensures
        r == s,
{
}

/// In a deposit the position counts with what it holds at the quoted price:
/// `amounts` are those of the pool's formulas, the vault's token0 first and its
/// token1 second, and each is added to the treasury of its own token.
pub proof fn law_deposit_counts_the_position(
    vault: Vault,
    quote: DepositQuote,
    position: PersonalPosition,
    amounts: (u64, u64),
    r: u64,
    s: u64,
)
    requires
        call_ensures(value_vault, (&vault, &quote, Some(position)), r),
        call_ensures(
            calculate_position_amounts,
            (
                quote.pool.sqrt_price_x64,
                quote.pool.tick_current,
                position.tick_lower_index,
                position.tick_upper_index,
                position.liquidity,
                quote.pool.token_mint_0 == vault.token0_mint,
            ),
            amounts,
        ),
        call_ensures(
            Vault::calculate_tvl_with_position,
            (&vault, quote.price, amounts.0, amounts.1),
            s,
        ),
    ensures
        r == s,
{
}

/// Where nothing goes beyond 64 bits, a position counts as its tokens would if
/// they lay in the treasuries: token0 with token0, and token1 with token1.
pub proof fn law_position_counts_like_treasury(
    vault: Vault,
    quote: DepositQuote,
    position: PersonalPosition,
    amounts: (u64, u64),
    r: u64,
    s: u64,
)
    requires
        call_ensures(value_vault, (&vault, &quote, Some(position)), r),
        call_ensures(
            calculate_position_amounts,
            (
                quote.pool.sqrt_price_x64,
                quote.pool.tick_current,
                position.tick_lower_index,
                position.tick_upper_index,
                position.liquidity,
                quote.pool.token_mint_0 == vault.token0_mint,
            ),
            amounts,
        ),
        vault.treasury_token0 + amounts.0 <= u64::MAX,
        vault.treasury_token1 + amounts.1 <= u64::MAX,
        call_ensures(
            value_vault,
            (
                &(Vault {
                    treasury_token0: (vault.treasury_token0 + amounts.0) as u64,
                    treasury_token1: (vault.treasury_token1 + amounts.1) as u64,
                    ..vault
                }),
                &quote,
                None::<PersonalPosition>,
            ),
            s,
        ),
    ensures
        r == s,
{
}

/// Below its range a position is all of the pool's first token. Where the vault
/// calls that token0, the token1 in the worth is the treasury's alone: a vault
/// without it is worth that much less, up to 64 bits.
pub proof fn law_position_below_its_range_has_no_token1(
    vault: Vault,
    quote: DepositQuote,
    position: PersonalPosition,
    r: u64,
    without: u64,
)
    requires
        quote.pool.tick_current < position.tick_lower_index,
        quote.pool.token_mint_0 == vault.token0_mint,
        call_ensures(value_vault, (&vault, &quote, Some(position)), r),
        call_ensures(
            value_vault,
            (
                &(Vault { treasury_token1: 0, accumulated_protocol_fees_token1: 0, ..vault }),
                &quote,
                Some(position),
            ),
            without,
        ),
    ensures
        r == lesser(
            without + rest(
                vault.treasury_token1 as int,
                vault.accumulated_protocol_fees_token1 as int,
            ),
            u64::MAX as int,
        ),
{
}

/// At or above its upper tick a position is all of the pool's second token. Where
/// the vault calls that token1, the token0 in the worth is the treasury's alone:
/// a vault with no more than its token1 and the position is worth that much less,
/// up to 64 bits.
pub proof fn law_position_above_its_range_has_no_token0(
    vault: Vault,
    quote: DepositQuote,
    position: PersonalPosition,
    r: u64,
    token0_alone: u64,
    without: u64,
)
    requires
        position.tick_lower_index <= position.tick_upper_index <= quote.pool.tick_current,
        quote.pool.token_mint_0 == vault.token0_mint,
        call_ensures(value_vault, (&vault, &quote, Some(position)), r),
        call_ensures(
            value_vault,
            (
                &(Vault { treasury_token1: 0, accumulated_protocol_fees_token1: 0, ..vault }),
                &quote,
                None::<PersonalPosition>,
            ),
            token0_alone,
        ),
        call_ensures(
            value_vault,
            (
                &(Vault { treasury_token0: 0, accumulated_protocol_fees_token0: 0, ..vault }),
                &quote,
                Some(position),
            ),
            without,
        ),
    ensures
        r == lesser(without + token0_alone, u64::MAX as int),
{
    lemma_pow_positive(10, vault.token0_decimals as nat);
    assert(0 * quote.price == 0) by (nonlinear_arith);
    lemma_div_unique(0, pow(10, vault.token0_decimals as nat), 0);
}

/// The value of an amount of token0 is its price per whole token times the
/// amount, rounded down, and nothing where that goes beyond 64 bits.
pub proof fn law_token0_is_valued_per_whole_token(vault: Vault, amount: u64, price: u64, r: u64)
    requires
        call_ensures(Vault::token0_to_token1, (&vault, amount, price), r),
    ensures
        is_quotient(r as int, amount * price, pow(10, vault.token0_decimals as nat)) || (r == 0
            && u64::MAX * pow(10, vault.token0_decimals as nat) < amount * price),
{
    let scale = pow(10, vault.token0_decimals as nat);
    lemma_pow_positive(10, vault.token0_decimals as nat);
    lemma_div_bounds(amount * price, scale);
    let q = amount * price / scale;
    assert(amount * price >= 0) by (nonlinear_arith)
        requires
            amount >= 0,
            price >= 0,
    ;
    if q > u64::MAX {
        assert(u64::MAX * scale + scale <= q * scale) by (nonlinear_arith)
            requires
                q >= u64::MAX + 1,
                scale > 0,
        ;
    }
}

/// What belongs to the holders of a treasury is what is left of it without the
/// protocol's fees in the same token.
pub proof fn law_holders_own_all_but_the_fees(vault: Vault, token0: u64, token1: u64)
    requires
        call_ensures(Vault::user_treasury_token0, (&vault,), token0),
        call_ensures(Vault::user_treasury_token1, (&vault,), token1),
    ensures
        token0 == rest(
            vault.treasury_token0 as int,
            vault.accumulated_protocol_fees_token0 as int,
        ),
        token1 == rest(
            vault.treasury_token1 as int,
            vault.accumulated_protocol_fees_token1 as int,
        ),
{
}

/// Shares are to the shares outstanding as the deposit is to the vault's worth,
/// rounded down. Where no one but the dead holds any, where the vault is worth
/// nothing, or where they would not fit in 64 bits, there is one per unit of
/// value.
pub proof fn law_shares_are_in_proportion(vault: Vault, value: u64, tvl: u64, r: u64, s: Result<
    u64,
    VaultError,
>)
    requires
        call_ensures(shares_for_deposit, (value, vault.total_shares, tvl), r),
        call_ensures(Vault::calculate_shares_to_mint, (&vault, value, tvl), s),
    ensures
        s == Ok::<u64, VaultError>(r),
        vault.total_shares <= 1_000 || tvl == 0 ==> r == value,
        vault.total_shares > 1_000 && tvl > 0 ==> is_quotient(
            r as int,
            value * vault.total_shares,
            tvl as int,
        ) || (r == value && u64::MAX * tvl < value * vault.total_shares),
{
    crate::state::lemma_shares_for_fits(value, vault.total_shares, tvl);
    if tvl > 0 {
        let n = value * vault.total_shares;
        let d = tvl as int;
        lemma_div_bounds(n, d);
        let q = n / d;
        if q > u64::MAX {
            assert(u64::MAX * d < q * d) by (nonlinear_arith)
                requires
                    q > u64::MAX,
                    d > 0,
            ;
        }
    }
}

/// The value of some shares is to the vault's worth as they are to the shares
/// outstanding, rounded down. It is refused only where 64 bits do not hold it.
pub proof fn law_shares_are_valued_in_proportion(vault: Vault, shares: u64, tvl: u64, r: Result<
    u64,
    VaultError,
>)
    requires
        call_ensures(Vault::calculate_withdrawal_value, (&vault, shares, tvl), r),
    ensures
        vault.total_shares == 0 ==> r == Ok::<u64, VaultError>(0),
        vault.total_shares > 0 ==> match r {
            Ok(v) => is_quotient(v as int, tvl * shares, vault.total_shares as int),
            Err(e) => e == VaultError::MathOverflow && u64::MAX * vault.total_shares < tvl
                * shares,
        },
{
    if vault.total_shares > 0 {
        let n = tvl * shares;
        let d = vault.total_shares as int;
        lemma_div_bounds(n, d);
        crate::math::lemma_mul_u64(tvl, shares);
        let q = n / d;
        if q > u64::MAX {
            assert(u64::MAX * d < q * d) by (nonlinear_arith)
                requires
                    q > u64::MAX,
                    d > 0,
            ;
        }
    }
}

/// The worth that a deposit reports is the worth before it and the deposit's
/// value, if 64 bits hold the sum, and otherwise the worth before it.
pub proof fn law_reported_worth_is_a_sum(tvl: u64, value: u64, r: u64)
    requires
        call_ensures(add_value, (tvl, value), r),
    ensures
        tvl + value <= u64::MAX ==> r == tvl + value,
        tvl + value > u64::MAX ==> r == tvl,
{
}

/// A thousand times the least deposit is one whole token, where a whole token
/// has a thousand units or more and 64 bits hold it.
pub proof fn law_least_deposit_is_a_thousandth(decimals: u8, r: u64)
    requires
        call_ensures(least_deposit, (decimals,), r),
    ensures
        decimals < 3 ==> r == 1,
        3 <= decimals <= 19 ==> 1_000 * r == pow(10, decimals as nat),
        decimals > 19 ==> is_quotient(r as int, u64::MAX as int, 1_000),
{
    lemma_pow10_values();
    if 3 <= decimals <= 19 {
        lemma_pow_adds(10, 3, (decimals - 3) as nat);
        assert(pow(10, 3) == 1_000) by {
            reveal_with_fuel(pow, 4);
        }
        let part = pow(10, (decimals - 3) as nat);
        lemma_div_unique(1_000 * part, 1_000, part);
    }
}

} // verus!
