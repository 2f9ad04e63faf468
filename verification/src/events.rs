//! What the instructions report.

use crate::pubkey::Pubkey;
use vstd::prelude::*;

verus! {

#[derive(Clone, Copy, Debug)]
pub struct VaultInitialized {
    pub admin: Pubkey,
    pub protocol_wallet: Pubkey,
    pub share_mint: Pubkey,
    pub token0_treasury: Pubkey,
    pub token1_treasury: Pubkey,
    pub pool_id: Pubkey,
}

#[derive(Clone, Copy, Debug)]
pub struct DepositToken0Event {
    pub user: Pubkey,
    pub amount: u64,
    pub deposit_value: u64,
    pub shares_minted: u64,
    pub total_shares: u64,
    pub tvl: u64,
    pub token0_price: u64,
}

#[derive(Clone, Copy, Debug)]
pub struct DepositToken1Event {
    pub user: Pubkey,
    pub amount: u64,
    pub shares_minted: u64,
    pub total_shares: u64,
    pub tvl: u64,
}

#[derive(Clone, Copy, Debug)]
pub struct WithdrawEvent {
    pub user: Pubkey,
    pub shares_burned: u64,
    pub token0_withdrawn: u64,
    pub token1_withdrawn: u64,
    pub withdrawal_value: u64,
}

#[derive(Debug)]
pub struct SwapEvent {
    pub amount_in: u64,
    pub direction: String,
    pub treasury_token0: u64,
    pub treasury_token1: u64,
}

#[derive(Clone, Copy, Debug)]
pub struct PositionOpened {
    pub position_mint: Pubkey,
    pub pool_id: Pubkey,
    pub tick_lower: i32,
    pub tick_upper: i32,
    pub liquidity: u128,
    pub token0_used: u64,
    pub token1_used: u64,
}

#[derive(Clone, Copy, Debug)]
pub struct PositionClosed {
    pub treasury_token0: u64,
    pub treasury_token1: u64,
}

#[derive(Clone, Copy, Debug)]
pub struct LiquidityIncreased {
    pub token0_added: u64,
    pub token1_added: u64,
    pub new_liquidity: u128,
}

#[derive(Clone, Copy, Debug)]
pub struct LiquidityDecreased {
    pub token0_received: u64,
    pub token1_received: u64,
    pub remaining_liquidity: u128,
}

#[derive(Clone, Copy, Debug)]
pub struct FeesCollected {
    pub total_token0_fees: u64,
    pub total_token1_fees: u64,
    pub protocol_token0_fees: u64,
    pub protocol_token1_fees: u64,
}

#[derive(Clone, Copy, Debug)]
pub struct ProtocolFeeExtracted {
    pub token0_amount: u64,
    pub token1_amount: u64,
    pub protocol_wallet: Pubkey,
}

#[derive(Clone, Copy, Debug)]
pub struct RewardsExtracted {
    pub reward_mint: Pubkey,
    pub amount: u64,
    pub protocol_wallet: Pubkey,
}

#[derive(Clone, Copy, Debug)]
pub struct OperatorChanged {
    pub old_operator: Pubkey,
    pub new_operator: Pubkey,
}

#[derive(Clone, Copy, Debug)]
pub struct VaultPausedEvent {
    pub paused: bool,
}

#[derive(Clone, Copy, Debug)]
pub struct AdminTransferProposed {
    pub current_admin: Pubkey,
    pub proposed_admin: Pubkey,
}

#[derive(Clone, Copy, Debug)]
pub struct AdminTransferAccepted {
    pub old_admin: Pubkey,
    pub new_admin: Pubkey,
}

#[derive(Clone, Copy, Debug)]
pub struct DepositUsdcEvent {
    pub user: Pubkey,
    pub amount: u64,
    pub shares_minted: u64,
    pub total_shares: u64,
    pub tvl_usd: u64,
}

#[derive(Clone, Copy, Debug)]
pub struct WithdrawToManageEvent {
    pub admin: Pubkey,
    pub sol_amount: u64,
    pub usdc_amount: u64,
}

} // verus!
