//! What migrating a vault account does.

use crate::accounts::check_position_account;
use crate::bytes::{field, read_le, read_u64};
use crate::errors::VaultError;
use crate::instructions::migrate_vault::{
    handler, migrate_with, migrated_vault, rent_shortfall, MigrateVault, Migration,
};
use crate::laws::governance::{is_nobody, lemma_nobody};
use crate::laws::rest;
use crate::layout::{is_laid_out, lemma_laid_out, lies_at};
use crate::pubkey::{lemma_key_ext, Pubkey};
use crate::state::Vault;
use vstd::prelude::*;

verus! {

/// An address lies at a place if and only if the field of that place is it.
proof fn lemma_key_at(data: Seq<u8>, at: int, key: Pubkey)
    requires
        0 <= at,
        at + 32 <= data.len(),
    ensures
        lies_at(data, at, key@) <==> field(data, at, 32) == key@,
{
    let found = field(data, at, 32);
    assert(key@.len() == 32);
    if lies_at(data, at, key@) {
        assert forall|i: int| 0 <= i < 32 implies found[i] == key@[i] by {
            assert(data[at + i] == key@[i]);
        }
        assert(found =~= key@);
    }
    if found == key@ {
        assert forall|i: int| 0 <= i < key@.len() implies #[trigger] data[at + i] == key@[i] by {
            assert(found[i] == data[at + i]);
        }
    }
}

/// A migration writes a vault whose fields each come from the account of the same
/// name, with the number of shares that the old account records, or else the
/// supply. The admin operates it. Everything else starts afresh.
pub proof fn law_migration_takes_each_field_from_its_own(
    data: &[u8],
    accounts: MigrateVault,
    protocol_wallet: Pubkey,
    clmm_program: Pubkey,
    derived: Option<Pubkey>,
    position_data: &[u8],
    recorded: u64,
    bytes: Vec<u8>,
)
    requires
        call_ensures(
            migrate_with,
            (data, &accounts, &protocol_wallet, &clmm_program, derived, position_data),
            Ok::<Migration, VaultError>(Migration::Rewrite(bytes)),
        ),
        data@.len() >= 272 ==> call_ensures(read_u64, (data, 264), recorded),
        data@.len() < 272 ==> recorded == 0,
    ensures
        exists|v: Vault|
            {
                &&& #[trigger] is_laid_out(bytes@, data@.subrange(0, 8), v)
                &&& v.admin == accounts.admin
                &&& v.operator == accounts.admin
                &&& v.share_mint == accounts.share_mint
                &&& v.pool_id == accounts.pool_id_account
                &&& v.protocol_wallet == protocol_wallet
                &&& v.token0_mint == accounts.token0_mint.key
                &&& v.token1_mint == accounts.token1_mint.key
                &&& v.token0_decimals == accounts.token0_mint.decimals
                &&& v.token1_decimals == accounts.token1_mint.decimals
                &&& v.token0_treasury == accounts.token0_treasury.key
                &&& v.token1_treasury == accounts.token1_treasury.key
                &&& v.treasury_token0 == accounts.token0_treasury.amount
                &&& v.treasury_token1 == accounts.token1_treasury.amount
                &&& v.bump == accounts.bumps.vault
                &&& v.share_mint_bump == accounts.bumps.share_mint
                &&& v.token0_treasury_bump == accounts.bumps.token0_treasury
                &&& v.token1_treasury_bump == accounts.bumps.token1_treasury
                &&& v.total_shares == (if recorded > 0 {
                    recorded
                } else {
                    accounts.share_supply
                })
                &&& starts_afresh(v)
            },
{
    let v = migrated_vault(data@, accounts, protocol_wallet);
    let discriminator = data@.subrange(0, 8);
    lemma_laid_out(discriminator, v);
    lemma_nobody(crate::pubkey::no_key());
    crate::bytes::lemma_le_nat_bound(field(data@, 264, 8));
    crate::bytes::lemma_pow256();
    assert(is_laid_out(bytes@, discriminator, v));
}

/// A vault without a position, fees, rebalance, pause, proposal or swaps.
pub open spec fn starts_afresh(v: Vault) -> bool {
    &&& is_nobody(v.position_mint)
    &&& !v.has_active_position
    &&& v.position_token0 == 0 && v.position_token1 == 0
    &&& v.position_liquidity == 0
    &&& v.position_tick_lower == 0 && v.position_tick_upper == 0
    &&& !v.is_paused
    &&& !v.is_rebalancing
    &&& v.rebalance_started_at == 0
    &&& is_nobody(v.pending_admin)
    &&& v.accumulated_protocol_fees_token0 == 0 && v.accumulated_protocol_fees_token1 == 0
    &&& v.swap_window_start == 0
    &&& v.swap_volume_in_window == 0
    &&& v.last_fee_collection_slot == 0
    &&& v.last_swap_at == 0
}

/// An account of the current length that names the pool is left alone. Another is
/// rewritten only on request of the admin whom it names, with mints that are its
/// treasuries' and a pool that is the pool program's, and only where no liquidity
/// is left: it records none, and where it is flagged as having a position, the
/// account handed in is that position's and records none. Each refusal comes only
/// where its reason is true.
pub proof fn law_migration_is_refused_for_a_reason(
    data: &[u8],
    accounts: MigrateVault,
    protocol_wallet: Pubkey,
    clmm_program: Pubkey,
    derived: Option<Pubkey>,
    position_data: &[u8],
    liquidity: u128,
    placed: u128,
    r: Result<Migration, VaultError>,
)
    requires
        call_ensures(
            migrate_with,
            (data, &accounts, &protocol_wallet, &clmm_program, derived, position_data),
            r,
        ),
        data@.len() >= 359 ==> call_ensures(read_le, (data, 343, 16), liquidity),
        data@.len() < 359 ==> liquidity == 0,
        position_data@.len() >= 97 ==> call_ensures(read_le, (position_data, 81, 16), placed),
    ensures
        ({
            let minted = accounts.token0_mint.key == accounts.token0_treasury.mint
                && accounts.token1_mint.key == accounts.token1_treasury.mint;
            let current = data@.len() == 489 && lies_at(data@, 72, accounts.pool_id_account@);
            let permitted = data@.len() >= 40 && lies_at(data@, 8, accounts.admin@);
            let flagged = data@.len() > 326 && data@[326] == 1;
            let located = derived == Some(accounts.personal_position) && position_data@.len() >= 97;
            match r {
                Ok(Migration::AlreadyMigrated) => minted && accounts.pool_owner == clmm_program
                    && current,
                Ok(Migration::Rewrite(_)) => {
                    &&& minted
                    &&& accounts.pool_owner == clmm_program
                    &&& !current
                    &&& permitted
                    &&& liquidity == 0
                    &&& flagged ==> located && placed == 0
                },
                Err(VaultError::InvalidMint) => !minted,
                Err(VaultError::InvalidPriceFeed) => accounts.pool_owner != clmm_program,
                Err(VaultError::Unauthorized) => !permitted && !current,
                Err(VaultError::InvalidPosition) => flagged && !located,
                Err(VaultError::PositionAlreadyExists) => liquidity != 0 || flagged && located
                    && placed != 0,
                Err(_) => false,
            }
        }),
{
    if data@.len() >= 104 {
        lemma_key_at(data@, 72, accounts.pool_id_account);
    }
    if data@.len() >= 40 {
        lemma_key_at(data@, 8, accounts.admin);
    }
    if derived is Some && derived->0@ == accounts.personal_position@ {
        lemma_key_ext(derived->0, accounts.personal_position);
    }
}

/// A migration derives the address of the position's record from the mint that the
/// old account names at byte 294: the account handed in passes there if and only
/// if it passes as that position's account anywhere.
pub proof fn law_migration_looks_at_the_recorded_position(
    data: &[u8],
    accounts: MigrateVault,
    protocol_wallet: Pubkey,
    clmm_program: Pubkey,
    position_data: &[u8],
    position_mint: Pubkey,
    located: Result<(), VaultError>,
    r: Result<Migration, VaultError>,
    s: Result<Migration, VaultError>,
)
    requires
        call_ensures(
            handler,
            (data, &accounts, &protocol_wallet, &clmm_program, position_data),
            r,
        ),
        data@.len() > 326,
        lies_at(data@, 294, position_mint@),
        call_ensures(
            check_position_account,
            (&accounts.personal_position, &position_mint, &clmm_program),
            located,
        ),
        call_ensures(
            migrate_with,
            (
                data,
                &accounts,
                &protocol_wallet,
                &clmm_program,
                if located is Ok {
                    Some(accounts.personal_position)
                } else {
                    None::<Pubkey>
                },
                position_data,
            ),
            s,
        ),
    ensures
        r is Err || s is Err ==> r == s,
        r == Ok::<Migration, VaultError>(Migration::AlreadyMigrated) <==> s == Ok::<
            Migration,
            VaultError,
        >(Migration::AlreadyMigrated),
        r matches Ok(Migration::Rewrite(b)) ==> (s matches Ok(Migration::Rewrite(c)) && b@ == c@),
{
    lemma_key_at(data@, 294, position_mint);
}

/// What is added to a balance brings it to the least, if it is below.
pub proof fn law_shortfall_is_made_up(lamports: u64, minimum: u64, r: u64)
    requires
        call_ensures(rent_shortfall, (lamports, minimum), r),
    ensures
        r == rest(minimum as int, lamports as int),
        lamports <= minimum ==> lamports + r == minimum,
{
}

} // verus!
