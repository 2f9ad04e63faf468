//! Migration of a vault account to the current layout.
//!
//! An older account cannot be decoded as a vault, so it is read byte by byte at
//! the offsets that never change. The account is then laid out afresh from what
//! the other accounts hold. All position and rebalance state is reset, so a
//! vault whose position still has liquidity is refused.

use crate::accounts::{is_derived_address, MintAccount, TokenAccount, VaultBumps};
use crate::bytes::{field, le_nat, read_le, read_u64};
use crate::errors::VaultError;
use crate::layout::{
    account_bytes, law_fields_lie_at_their_offsets, write_account, ADMIN_OFFSET,
    DISCRIMINATOR_LEN, HAS_ACTIVE_POSITION_OFFSET, POOL_ID_OFFSET, POSITION_LIQUIDITY_OFFSET,
    POSITION_MINT_OFFSET, TOTAL_SHARES_OFFSET,
};
use crate::math::monus;
use crate::pubkey::{find_program_address, lemma_key_ext, program_address, Pubkey};
use crate::seeds;
use crate::state::{empty_vault, Vault};
use vstd::prelude::*;

verus! {

/// Where the pool program's record of a position keeps the liquidity.
pub const RECORD_LIQUIDITY_OFFSET: usize = 81;

/// Accounts of a migration, but for the bytes of the vault and of the position.
#[derive(Clone, Copy, Debug)]
pub struct MigrateVault {
    /// Who asks for the migration.
    pub admin: Pubkey,
    /// Mint of the vault's shares.
    pub share_mint: Pubkey,
    /// Shares in circulation.
    pub share_supply: u64,
    /// The vault's token0.
    pub token0_treasury: TokenAccount,
    /// The vault's token1.
    pub token1_treasury: TokenAccount,
    /// Mint of token0.
    pub token0_mint: MintAccount,
    /// Mint of token1.
    pub token1_mint: MintAccount,
    /// The pool.
    pub pool_id_account: Pubkey,
    /// The program that owns the pool's account.
    pub pool_owner: Pubkey,
    /// The pool program's record of the position.
    pub personal_position: Pubkey,
    /// Bumps of the vault's addresses.
    pub bumps: VaultBumps,
}

/// What a migration does.
#[derive(Debug)]
pub enum Migration {
    /// Nothing: the account has the current layout.
    AlreadyMigrated,
    /// The account becomes these bytes.
    Rewrite(Vec<u8>),
}

/// The account has the current layout and names the pool.
pub open spec fn is_migrated(data: Seq<u8>, pool: Pubkey) -> bool {
    data.len() == Vault::LEN && field(data, POOL_ID_OFFSET as int, 32) == pool@
}

/// The account is flagged as having a position.
pub open spec fn is_flagged(data: Seq<u8>) -> bool {
    data.len() > HAS_ACTIVE_POSITION_OFFSET && data[HAS_ACTIVE_POSITION_OFFSET as int] == 1
}

/// The liquidity that the account records. An account too short to record any
/// has none.
pub open spec fn recorded_liquidity(data: Seq<u8>) -> int {
    if data.len() >= POSITION_LIQUIDITY_OFFSET + 16 {
        le_nat(field(data, POSITION_LIQUIDITY_OFFSET as int, 16))
    } else {
        0
    }
}

/// The number of shares that the account records, or else the shares in
/// circulation.
pub open spec fn preserved_shares(data: Seq<u8>, supply: u64) -> u64 {
    if data.len() >= TOTAL_SHARES_OFFSET + 8 && le_nat(field(data, TOTAL_SHARES_OFFSET as int, 8))
        != 0 {
        le_nat(field(data, TOTAL_SHARES_OFFSET as int, 8)) as u64
    } else {
        supply
    }
}

/// Why the accounts are refused, if they are.
pub open spec fn accounts_refusal(accounts: MigrateVault, clmm_program: Pubkey) -> Option<
    VaultError,
> {
    if accounts.token0_mint.key != accounts.token0_treasury.mint {
        Some(VaultError::InvalidMint)
    } else if accounts.token1_mint.key != accounts.token1_treasury.mint {
        Some(VaultError::InvalidMint)
    } else if accounts.pool_owner != clmm_program {
        Some(VaultError::InvalidPriceFeed)
    } else {
        None
    }
}

/// Why a vault that is flagged as having a position is refused, if it is.
/// `derived` is the address of the pool program's record of the position.
pub open spec fn position_refusal(
    accounts: MigrateVault,
    derived: Option<Seq<u8>>,
    position_data: Seq<u8>,
) -> Option<VaultError> {
    if derived != Some(accounts.personal_position@) {
        Some(VaultError::InvalidPosition)
    } else if position_data.len() < RECORD_LIQUIDITY_OFFSET + 16 {
        Some(VaultError::InvalidPosition)
    } else if le_nat(field(position_data, RECORD_LIQUIDITY_OFFSET as int, 16)) != 0 {
        Some(VaultError::PositionAlreadyExists)
    } else {
        None
    }
}

/// Why a migration that is needed is refused, if it is.
pub open spec fn refusal(
    data: Seq<u8>,
    accounts: MigrateVault,
    derived: Option<Seq<u8>>,
    position_data: Seq<u8>,
) -> Option<VaultError> {
    if data.len() < ADMIN_OFFSET + 32 || field(data, ADMIN_OFFSET as int, 32) != accounts.admin@ {
        Some(VaultError::Unauthorized)
    } else if recorded_liquidity(data) != 0 {
        Some(VaultError::PositionAlreadyExists)
    } else if is_flagged(data) {
        position_refusal(accounts, derived, position_data)
    } else {
        None
    }
}

/// The vault after a migration.
pub open spec fn migrated_vault(data: Seq<u8>, accounts: MigrateVault, protocol_wallet: Pubkey) -> Vault {
    Vault {
        admin: accounts.admin,
        share_mint: accounts.share_mint,
        pool_id: accounts.pool_id_account,
        token0_mint: accounts.token0_treasury.mint,
        token1_mint: accounts.token1_treasury.mint,
        token0_treasury: accounts.token0_treasury.key,
        token1_treasury: accounts.token1_treasury.key,
        protocol_wallet,
        total_shares: preserved_shares(data, accounts.share_supply),
        treasury_token0: accounts.token0_treasury.amount,
        treasury_token1: accounts.token1_treasury.amount,
        token0_decimals: accounts.token0_mint.decimals,
        token1_decimals: accounts.token1_mint.decimals,
        bump: accounts.bumps.vault,
        token0_treasury_bump: accounts.bumps.token0_treasury,
        token1_treasury_bump: accounts.bumps.token1_treasury,
        share_mint_bump: accounts.bumps.share_mint,
        operator: accounts.admin,
        ..empty_vault()
    }
}

/// What a migration comes to.
pub open spec fn migrates_to(
    r: Result<Migration, VaultError>,
    data: Seq<u8>,
    accounts: MigrateVault,
    protocol_wallet: Pubkey,
    clmm_program: Pubkey,
    derived: Option<Seq<u8>>,
    position_data: Seq<u8>,
) -> bool {
    if accounts_refusal(accounts, clmm_program) is Some {
        r == Err::<Migration, VaultError>(accounts_refusal(accounts, clmm_program)->0)
    } else if is_migrated(data, accounts.pool_id_account) {
        r == Ok::<Migration, VaultError>(Migration::AlreadyMigrated)
    } else {
        match refusal(data, accounts, derived, position_data) {
            Some(e) => r == Err::<Migration, VaultError>(e),
            None => {
                &&& r matches Ok(Migration::Rewrite(bytes))
                &&& bytes@ == account_bytes(
                    field(data, 0, DISCRIMINATOR_LEN as int),
                    migrated_vault(data, accounts, protocol_wallet),
                )
            },
        }
    }
}

/// Tells whether the 32 bytes of `data` from `at` on are `key`.
fn holds_key(data: &[u8], at: usize, key: &Pubkey) -> (r: bool)
    requires
        at + 32 <= data@.len(),
    ensures
        r == (field(data@, at as int, 32) == key@),
{
    let found: Pubkey = Pubkey::read(data, at);
    proof {
        if found@ == key@ {
            lemma_key_ext(found, *key);
        }
    }
    found == *key
}

/// Migrates a vault account, given the address `derived` for the pool program's
/// record of its position.
pub fn migrate_with(
    data: &[u8],
    accounts: &MigrateVault,
    protocol_wallet: &Pubkey,
    clmm_program: &Pubkey,
    derived: Option<Pubkey>,
    position_data: &[u8],
) -> (r: Result<Migration, VaultError>)
    ensures
        migrates_to(
            r,
            data@,
            *accounts,
            *protocol_wallet,
            *clmm_program,
            match derived {
                Some(key) => Some(key@),
                None => None,
            },
            position_data@,
        ),
{
    if accounts.token0_mint.key != accounts.token0_treasury.mint {
        return Err(VaultError::InvalidMint);
    }
    if accounts.token1_mint.key != accounts.token1_treasury.mint {
        return Err(VaultError::InvalidMint);
    }
    if accounts.pool_owner != *clmm_program {
        return Err(VaultError::InvalidPriceFeed);
    }
    if data.len() == Vault::LEN && holds_key(data, POOL_ID_OFFSET, &accounts.pool_id_account) {
        return Ok(Migration::AlreadyMigrated);
    }
    if data.len() < ADMIN_OFFSET + 32 || !holds_key(data, ADMIN_OFFSET, &accounts.admin) {
        return Err(VaultError::Unauthorized);
    }
    if data.len() >= POSITION_LIQUIDITY_OFFSET + 16 && read_le(data, POSITION_LIQUIDITY_OFFSET, 16)
        != 0 {
        return Err(VaultError::PositionAlreadyExists);
    }
    if data.len() > HAS_ACTIVE_POSITION_OFFSET && data[HAS_ACTIVE_POSITION_OFFSET] == 1 {
        if !is_derived_address(&accounts.personal_position, derived) {
            return Err(VaultError::InvalidPosition);
        }
        if position_data.len() < RECORD_LIQUIDITY_OFFSET + 16 {
            return Err(VaultError::InvalidPosition);
        }
        if read_le(position_data, RECORD_LIQUIDITY_OFFSET, 16) != 0 {
            return Err(VaultError::PositionAlreadyExists);
        }
    }
    let recorded: u64 = if data.len() >= TOTAL_SHARES_OFFSET + 8 {
        read_u64(data, TOTAL_SHARES_OFFSET)
    } else {
        0
    };
    let total_shares: u64 = if recorded > 0 {
        recorded
    } else {
        accounts.share_supply
    };
    let none: Pubkey = Pubkey::default();
    let vault: Vault = Vault {
        admin: accounts.admin,
        share_mint: accounts.share_mint,
        pool_id: accounts.pool_id_account,
        token0_mint: accounts.token0_treasury.mint,
        token1_mint: accounts.token1_treasury.mint,
        token0_treasury: accounts.token0_treasury.key,
        token1_treasury: accounts.token1_treasury.key,
        protocol_wallet: *protocol_wallet,
        total_shares,
        treasury_token0: accounts.token0_treasury.amount,
        treasury_token1: accounts.token1_treasury.amount,
        token0_decimals: accounts.token0_mint.decimals,
        token1_decimals: accounts.token1_mint.decimals,
        bump: accounts.bumps.vault,
        token0_treasury_bump: accounts.bumps.token0_treasury,
        token1_treasury_bump: accounts.bumps.token1_treasury,
        share_mint_bump: accounts.bumps.share_mint,
        position_mint: none,
        has_active_position: false,
        position_token0: 0,
        position_token1: 0,
        position_liquidity: 0,
        position_tick_lower: 0,
        position_tick_upper: 0,
        is_paused: false,
        is_rebalancing: false,
        pending_admin: none,
        accumulated_protocol_fees_token0: 0,
        accumulated_protocol_fees_token1: 0,
        rebalance_started_at: 0,
        operator: accounts.admin,
        swap_window_start: 0,
        swap_volume_in_window: 0,
        last_fee_collection_slot: 0,
        last_swap_at: 0,
    };
    assert(vault == migrated_vault(data@, *accounts, *protocol_wallet));
    let discriminator: &[u8] = vstd::slice::slice_subrange(data, 0, DISCRIMINATOR_LEN);
    Ok(Migration::Rewrite(write_account(discriminator, &vault)))
}

/// Migrates a vault account to the current layout.
///
/// `data` and `position_data` are the bytes of the vault account and of the pool
/// program's record of its position. An account that has the current layout is
/// left alone, whoever asks. The number of shares carries over, so that the dead
/// shares keep counting. Fees, position, rebalance, pause and rate limits start
/// afresh, and the admin becomes the operator.
pub fn handler(
    data: &[u8],
    accounts: &MigrateVault,
    protocol_wallet: &Pubkey,
    clmm_program: &Pubkey,
    position_data: &[u8],
) -> (r: Result<Migration, VaultError>)
    ensures
        migrates_to(
            r,
            data@,
            *accounts,
            *protocol_wallet,
            *clmm_program,
            if is_flagged(data@) {
                program_address(
                    seq![seeds::POSITION@, field(data@, POSITION_MINT_OFFSET as int, 32)],
                    clmm_program@,
                )
            } else {
                None
            },
            position_data@,
        ),
{
    let derived: Option<Pubkey> = if data.len() > HAS_ACTIVE_POSITION_OFFSET
        && data[HAS_ACTIVE_POSITION_OFFSET] == 1 {
        let position_mint: Pubkey = Pubkey::read(data, POSITION_MINT_OFFSET);
        find_program_address(&seeds::POSITION, &position_mint, clmm_program)
    } else {
        None
    };
    migrate_with(data, accounts, protocol_wallet, clmm_program, derived, position_data)
}

/// What must be added to `lamports` to reach the least balance `minimum`.
pub fn rent_shortfall(lamports: u64, minimum: u64) -> (r: u64)
    ensures
        r == monus(minimum as int, lamports as int),
{
    minimum.saturating_sub(lamports)
}

/// Migrating an account that was just migrated does nothing, whatever the other
/// accounts hold by then.
pub proof fn law_migration_is_idempotent(
    data: Seq<u8>,
    accounts: MigrateVault,
    protocol_wallet: Pubkey,
    clmm_program: Pubkey,
    again: MigrateVault,
    wallet_again: Pubkey,
    derived: Option<Seq<u8>>,
    position_data: Seq<u8>,
    r: Result<Migration, VaultError>,
)
    requires
        data.len() >= DISCRIMINATOR_LEN,
        again.pool_id_account == accounts.pool_id_account,
        accounts_refusal(again, clmm_program) is None,
        migrates_to(
            r,
            account_bytes(
                field(data, 0, DISCRIMINATOR_LEN as int),
                migrated_vault(data, accounts, protocol_wallet),
            ),
            again,
            wallet_again,
            clmm_program,
            derived,
            position_data,
        ),
    ensures
        r == Ok::<Migration, VaultError>(Migration::AlreadyMigrated),
{
    law_fields_lie_at_their_offsets(
        field(data, 0, DISCRIMINATOR_LEN as int),
        migrated_vault(data, accounts, protocol_wallet),
    );
}

/// A migration never forgets liquidity: an account that records some, or is
/// flagged as having a position whose record shows some, is not rewritten.
pub proof fn law_migration_keeps_live_positions(
    data: Seq<u8>,
    accounts: MigrateVault,
    protocol_wallet: Pubkey,
    clmm_program: Pubkey,
    derived: Option<Seq<u8>>,
    position_data: Seq<u8>,
    r: Result<Migration, VaultError>,
)
    requires
        migrates_to(
            r,
            data,
            accounts,
            protocol_wallet,
            clmm_program,
            derived,
            position_data,
        ),
        recorded_liquidity(data) != 0 || (is_flagged(data) && (position_data.len()
            < RECORD_LIQUIDITY_OFFSET + 16 || le_nat(
            field(position_data, RECORD_LIQUIDITY_OFFSET as int, 16),
        ) != 0)),
    ensures
        r matches Ok(m) ==> m is AlreadyMigrated,
{
}

/// A migration keeps the discriminator, the admin and the number of shares where
/// they were.
pub proof fn law_migration_keeps_shares(
    data: Seq<u8>,
    accounts: MigrateVault,
    protocol_wallet: Pubkey,
    clmm_program: Pubkey,
    derived: Option<Seq<u8>>,
    position_data: Seq<u8>,
    bytes: Vec<u8>,
)
    requires
        data.len() >= TOTAL_SHARES_OFFSET + 8,
        le_nat(field(data, TOTAL_SHARES_OFFSET as int, 8)) != 0,
        migrates_to(
            Ok::<Migration, VaultError>(Migration::Rewrite(bytes)),
            data,
            accounts,
            protocol_wallet,
            clmm_program,
            derived,
            position_data,
        ),
    ensures
        bytes@.len() == Vault::LEN,
        field(bytes@, 0, DISCRIMINATOR_LEN as int) == field(data, 0, DISCRIMINATOR_LEN as int),
        field(bytes@, ADMIN_OFFSET as int, 32) == field(data, ADMIN_OFFSET as int, 32),
        le_nat(field(bytes@, TOTAL_SHARES_OFFSET as int, 8)) == le_nat(
            field(data, TOTAL_SHARES_OFFSET as int, 8),
        ),
{
    law_fields_lie_at_their_offsets(
        field(data, 0, DISCRIMINATOR_LEN as int),
        migrated_vault(data, accounts, protocol_wallet),
    );
    crate::bytes::lemma_le_nat_bound(field(data, TOTAL_SHARES_OFFSET as int, 8));
    crate::bytes::lemma_pow256();
}

} // verus!
