//! Paying the protocol's part of the fees to its wallet.
//!
//! In order: `begin`; pay out what it says; `finish`.

use crate::accounts::{Balances, TokenAccount};
use crate::errors::VaultError;
use crate::events::ProtocolFeeExtracted;
use crate::pubkey::Pubkey;
use crate::state::Vault;
use vstd::prelude::*;

verus! {

/// Accounts of a fee payout.
#[derive(Clone, Copy, Debug)]
pub struct ExtractProtocolFee {
    /// Who asks for the payout.
    pub admin: Pubkey,
    /// The vault's token0.
    pub token0_treasury: TokenAccount,
    /// The vault's token1.
    pub token1_treasury: TokenAccount,
    /// Where the token0 fees go.
    pub protocol_token0_account: TokenAccount,
    /// Where the token1 fees go.
    pub protocol_token1_account: TokenAccount,
}

/// Why a fee payout is refused, if it is.
pub open spec fn refusal(vault: Vault, accounts: ExtractProtocolFee) -> Option<VaultError> {
    if vault.admin != accounts.admin {
        Some(VaultError::Unauthorized)
    } else if accounts.protocol_token0_account.owner != vault.protocol_wallet {
        Some(VaultError::Unauthorized)
    } else if accounts.protocol_token0_account.mint != accounts.token0_treasury.mint {
        Some(VaultError::InvalidMint)
    } else if accounts.protocol_token1_account.owner != vault.protocol_wallet {
        Some(VaultError::Unauthorized)
    } else if accounts.protocol_token1_account.mint != accounts.token1_treasury.mint {
        Some(VaultError::InvalidMint)
    } else if vault.accumulated_protocol_fees_token0 == 0
        && vault.accumulated_protocol_fees_token1 == 0 {
        Some(VaultError::NoFeesToExtract)
    } else {
        None
    }
}

/// Checks that the protocol's fees may be paid out. On success it tells how much
/// of each token is to leave the treasuries: all of the fees.
pub fn begin(vault: &Vault, accounts: &ExtractProtocolFee) -> (r: Result<
    Balances,
    VaultError,
>)
    ensures
        r == (match refusal(*vault, *accounts) {
            Some(e) => Err::<Balances, VaultError>(e),
            None => Ok::<Balances, VaultError>(
                (Balances {
                    token0: vault.accumulated_protocol_fees_token0,
                    token1: vault.accumulated_protocol_fees_token1,
                }),
            ),
        }),
{
    if vault.admin != accounts.admin {
        return Err(VaultError::Unauthorized);
    }
    if accounts.protocol_token0_account.owner != vault.protocol_wallet {
        return Err(VaultError::Unauthorized);
    }
    if accounts.protocol_token0_account.mint != accounts.token0_treasury.mint {
        return Err(VaultError::InvalidMint);
    }
    if accounts.protocol_token1_account.owner != vault.protocol_wallet {
        return Err(VaultError::Unauthorized);
    }
    if accounts.protocol_token1_account.mint != accounts.token1_treasury.mint {
        return Err(VaultError::InvalidMint);
    }
    if !(vault.accumulated_protocol_fees_token0 > 0 || vault.accumulated_protocol_fees_token1 > 0) {
        return Err(VaultError::NoFeesToExtract);
    }
    Ok(
        Balances {
            token0: vault.accumulated_protocol_fees_token0,
            token1: vault.accumulated_protocol_fees_token1,
        },
    )
}

/// The vault after a fee payout that leaves `treasury` in the treasuries.
pub open spec fn vault_after(vault: Vault, treasury: Balances) -> Vault {
    Vault {
        treasury_token0: treasury.token0,
        treasury_token1: treasury.token1,
        accumulated_protocol_fees_token0: 0,
        accumulated_protocol_fees_token1: 0,
        ..vault
    }
}

/// Records a fee payout. `treasury` is what the treasuries hold after it.
pub fn finish(vault: &mut Vault, treasury: Balances) -> (r: ProtocolFeeExtracted)
    ensures
        *final(vault) == vault_after(*old(vault), treasury),
        r == (ProtocolFeeExtracted {
            token0_amount: old(vault).accumulated_protocol_fees_token0,
            token1_amount: old(vault).accumulated_protocol_fees_token1,
            protocol_wallet: old(vault).protocol_wallet,
        }),
{
    let token0_amount: u64 = vault.accumulated_protocol_fees_token0;
    let token1_amount: u64 = vault.accumulated_protocol_fees_token1;
    vault.treasury_token0 = treasury.token0;
    vault.treasury_token1 = treasury.token1;
    vault.accumulated_protocol_fees_token0 = 0;
    vault.accumulated_protocol_fees_token1 = 0;
    ProtocolFeeExtracted { token0_amount, token1_amount, protocol_wallet: vault.protocol_wallet }
}

/// Paying the protocol's fees out of a treasury that covers them leaves what
/// belongs to the holders, and what it is worth, as it was. A second payout is
/// refused.
pub proof fn law_fee_payout_is_neutral(
    vault: Vault,
    treasury: Balances,
    accounts: ExtractProtocolFee,
    price: int,
    position_token0: int,
    position_token1: int,
)
    requires
        vault.covers_fees(),
        0 <= position_token0,
        0 <= position_token1,
        vault.treasury_token0 + position_token0 <= u64::MAX,
        vault.treasury_token1 + position_token1 <= u64::MAX,
        treasury.token0 == vault.treasury_token0 - vault.accumulated_protocol_fees_token0,
        treasury.token1 == vault.treasury_token1 - vault.accumulated_protocol_fees_token1,
    ensures
        ({
            let v = vault_after(vault, treasury);
            &&& v.user_token0() == vault.user_token0()
            &&& v.user_token1() == vault.user_token1()
            &&& v.tvl(price, position_token0, position_token1) == vault.tvl(
                price,
                position_token0,
                position_token1,
            )
            &&& v.covers_fees()
            &&& refusal(v, accounts) is Some
        }),
{
}

} // verus!
