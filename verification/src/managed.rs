//! A vault that is managed by hand.
//!
//! Its admin takes SOL and USDC out to manage them, brings them back, and
//! reports what everything is worth. Deposits are priced at the reported worth.

use crate::pubkey::Pubkey;
use vstd::prelude::*;

verus! {

/// A managed vault's account.
#[derive(Clone, Copy, Debug)]
pub struct ManagedVault {
    /// Manages the funds and reports their worth.
    pub admin: Pubkey,
    /// Deposits are disabled.
    pub is_paused: bool,
    /// Shares outstanding.
    pub total_shares: u64,
    /// SOL in the treasury, in lamports.
    pub treasury_sol: u64,
    /// USDC in the treasury, in raw units.
    pub treasury_usdc: u64,
    /// Reported worth in USD, with 6 decimals.
    pub tvl_usd: u64,
    /// Reported price of SOL in USD, with 6 decimals.
    pub sol_price_usd: u64,
    /// When the worth was last reported.
    pub last_tvl_update: i64,
}

/// What a depositor has put into a managed vault.
#[derive(Clone, Copy, Debug)]
pub struct ManagedDeposit {
    /// The depositor.
    pub user: Pubkey,
    /// The vault.
    pub vault: Pubkey,
    /// Shares minted.
    pub shares: u64,
    /// USDC deposited over time.
    pub total_deposited_usdc: u64,
    /// When the record was created, or zero.
    pub created_at: i64,
    /// When the record last changed.
    pub updated_at: i64,
    /// Bump of the record's address.
    pub bump: u8,
}

} // verus!
