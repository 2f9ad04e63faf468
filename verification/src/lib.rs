//! A vault that pools two tokens, keeps them in a concentrated-liquidity
//! position, and prices its shares from the pool that the position lives in.
//!
//! `state` holds the vault's account and its share formulas; `price`, `oracle`,
//! `tick_math` and `liquidity` read the pool; `instructions` decide what may
//! happen and how the vault changes; `laws` states what holds of all of it.

pub mod accounts;
pub mod bytes;
pub mod constants;
pub mod errors;
pub mod events;
pub mod instructions;
pub mod laws;
pub mod layout;
pub mod liquidity;
pub mod managed;
pub mod math;
pub mod oracle;
pub mod price;
pub mod pubkey;
pub mod seeds;
pub mod state;
pub mod tick_math;
pub mod wide;
