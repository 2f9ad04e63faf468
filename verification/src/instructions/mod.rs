//! The vault's instructions.
//!
//! An instruction that moves tokens is split where the token or pool program is
//! called. Each part takes what the accounts held at that point and says what
//! to do next or how the vault changes. A refused part changes nothing.

pub mod accept_admin;
pub mod cancel_rebalance;
pub mod collect_fees;
pub mod delegation;
pub mod deposit;
pub mod deposit_token0;
pub mod deposit_token1;
pub mod deposit_usdc;
pub mod extract_protocol_fee;
pub mod extract_rewards;
pub mod increase_liquidity;
pub mod initialize;
pub mod migrate_vault;
pub mod open_position;
pub mod rebalance;
pub mod return_from_manage;
pub mod set_operator;
pub mod set_paused;
pub mod swap_in_treasury;
pub mod sync_position_value;
pub mod transfer_admin;
pub mod update_tvl;
pub mod withdraw;
pub mod withdraw_from_position;
pub mod withdraw_to_manage;
