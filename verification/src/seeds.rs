//! The seeds from which the vault's accounts derive their addresses.

use vstd::prelude::*;

verus! {

/// "vault"
pub const VAULT: [u8; 5] = [118, 97, 117, 108, 116];

/// "token0_treasury"
pub const TOKEN0_TREASURY: [u8; 15] = [
    116, 111, 107, 101, 110, 48, 95, 116, 114, 101, 97, 115, 117, 114, 121,
];

/// "token1_treasury"
pub const TOKEN1_TREASURY: [u8; 15] = [
    116, 111, 107, 101, 110, 49, 95, 116, 114, 101, 97, 115, 117, 114, 121,
];

/// "share_mint"
pub const SHARE_MINT: [u8; 10] = [115, 104, 97, 114, 101, 95, 109, 105, 110, 116];

/// "user_deposit"
pub const USER_DEPOSIT: [u8; 12] = [117, 115, 101, 114, 95, 100, 101, 112, 111, 115, 105, 116];

/// "position_nft"
pub const POSITION_NFT: [u8; 12] = [112, 111, 115, 105, 116, 105, 111, 110, 95, 110, 102, 116];

/// "position", under which the pool program derives a position's address from
/// its mint.
pub const POSITION: [u8; 8] = [112, 111, 115, 105, 116, 105, 111, 110];

} // verus!
