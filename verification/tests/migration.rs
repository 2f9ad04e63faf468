//! The layout of a vault account, and its migration.

use vault::accounts::{MintAccount, TokenAccount, VaultBumps};
use vault::errors::VaultError;
use vault::instructions::migrate_vault::{
    handler, migrate_with, rent_shortfall, MigrateVault, Migration,
};
use vault::layout::write_account;
use vault::pubkey::Pubkey;
use vault::state::Vault;

fn key(n: u8) -> Pubkey {
    Pubkey { bytes: [n; 32] }
}

const ADMIN: u8 = 1;
const WALLET: u8 = 3;
const CLMM: u8 = 8;
const POOL: u8 = 12;
const POSITION: u8 = 13;

/// A vault whose fields all differ.
fn vault() -> Vault {
    let mut v = Vault::default();
    v.admin = key(ADMIN);
    v.share_mint = key(2);
    v.pool_id = key(POOL);
    v.token0_mint = key(4);
    v.token1_mint = key(5);
    v.token0_treasury = key(6);
    v.token1_treasury = key(7);
    v.protocol_wallet = key(WALLET);
    v.total_shares = 0x0102_0304_0506_0708;
    v.treasury_token0 = 11;
    v.treasury_token1 = 12;
    v.token0_decimals = 9;
    v.token1_decimals = 6;
    v.bump = 251;
    v.token0_treasury_bump = 252;
    v.token1_treasury_bump = 253;
    v.share_mint_bump = 254;
    v.position_mint = key(POSITION);
    v.has_active_position = true;
    v.position_token0 = 21;
    v.position_token1 = 22;
    v.position_liquidity = 0x1234_5678_9abc_def0_1111_2222_3333_4444;
    v.position_tick_lower = -443_000;
    v.position_tick_upper = 443_000;
    v.is_paused = true;
    v.is_rebalancing = false;
    v.pending_admin = key(14);
    v.accumulated_protocol_fees_token0 = 31;
    v.accumulated_protocol_fees_token1 = 32;
    v.rebalance_started_at = -41;
    v.operator = key(15);
    v.swap_window_start = i64::MIN;
    v.swap_volume_in_window = 51;
    v.last_fee_collection_slot = 61;
    v.last_swap_at = 71;
    v
}

fn put<T: anchor_lang::AnchorSerialize>(out: &mut Vec<u8>, value: &T) {
    value.serialize(out).unwrap();
}

#[test]
fn the_layout_is_that_of_the_serializer() {
    let v = vault();
    let mut expected: Vec<u8> = vec![1, 2, 3, 4, 5, 6, 7, 8];
    for k in [
        v.admin,
        v.share_mint,
        v.pool_id,
        v.token0_mint,
        v.token1_mint,
        v.token0_treasury,
        v.token1_treasury,
        v.protocol_wallet,
    ] {
        put(&mut expected, &k.bytes);
    }
    put(&mut expected, &v.total_shares);
    put(&mut expected, &v.treasury_token0);
    put(&mut expected, &v.treasury_token1);
    put(&mut expected, &v.token0_decimals);
    put(&mut expected, &v.token1_decimals);
    put(&mut expected, &v.bump);
    put(&mut expected, &v.token0_treasury_bump);
    put(&mut expected, &v.token1_treasury_bump);
    put(&mut expected, &v.share_mint_bump);
    put(&mut expected, &v.position_mint.bytes);
    put(&mut expected, &v.has_active_position);
    put(&mut expected, &v.position_token0);
    put(&mut expected, &v.position_token1);
    put(&mut expected, &v.position_liquidity);
    put(&mut expected, &v.position_tick_lower);
    put(&mut expected, &v.position_tick_upper);
    put(&mut expected, &v.is_paused);
    put(&mut expected, &v.is_rebalancing);
    put(&mut expected, &v.pending_admin.bytes);
    put(&mut expected, &v.accumulated_protocol_fees_token0);
    put(&mut expected, &v.accumulated_protocol_fees_token1);
    put(&mut expected, &v.rebalance_started_at);
    put(&mut expected, &v.operator.bytes);
    put(&mut expected, &v.swap_window_start);
    put(&mut expected, &v.swap_volume_in_window);
    put(&mut expected, &v.last_fee_collection_slot);
    put(&mut expected, &v.last_swap_at);
    let data = write_account(&[1, 2, 3, 4, 5, 6, 7, 8], &v);
    assert_eq!(data.len(), Vault::LEN);
    assert_eq!(data, expected);
    assert_eq!(data[8..40], key(ADMIN).bytes);
    assert_eq!(data[72..104], key(POOL).bytes);
    assert_eq!(data[264..272], 0x0102_0304_0506_0708u64.to_le_bytes());
    assert_eq!(data[294..326], key(POSITION).bytes);
    assert_eq!(data[326], 1);
    assert_eq!(data[343..359], v.position_liquidity.to_le_bytes());
}

fn accounts() -> MigrateVault {
    let treasury = |k: u8, mint: u8, amount: u64| TokenAccount {
        key: key(k),
        mint: key(mint),
        owner: key(50),
        amount,
    };
    MigrateVault {
        admin: key(ADMIN),
        share_mint: key(2),
        share_supply: 4_242,
        token0_treasury: treasury(6, 4, 1_000),
        token1_treasury: treasury(7, 5, 2_000),
        token0_mint: MintAccount { key: key(4), decimals: 9 },
        token1_mint: MintAccount { key: key(5), decimals: 6 },
        pool_id_account: key(POOL),
        pool_owner: key(CLMM),
        personal_position: key(99),
        bumps: VaultBumps { vault: 251, share_mint: 254, token0_treasury: 252, token1_treasury: 253 },
    }
}

/// An account of an older layout: shorter, with nothing in a position.
fn older() -> Vec<u8> {
    let mut v = vault();
    v.has_active_position = false;
    v.position_liquidity = 0;
    let mut data = write_account(&[1, 2, 3, 4, 5, 6, 7, 8], &v);
    data.truncate(425);
    data
}

fn rewritten(r: Result<Migration, VaultError>) -> Vec<u8> {
    match r {
        Ok(Migration::Rewrite(bytes)) => bytes,
        other => panic!("{:?}", other),
    }
}

fn migrate(data: &[u8], position: &[u8]) -> Result<Migration, VaultError> {
    handler(data, &accounts(), &key(WALLET), &key(CLMM), position)
}

#[test]
fn a_migration_starts_afresh_but_for_the_shares() {
    let bytes = rewritten(migrate(&older(), &[]));
    let mut expected = Vault::default();
    expected.admin = key(ADMIN);
    expected.operator = key(ADMIN);
    expected.share_mint = key(2);
    expected.pool_id = key(POOL);
    expected.token0_mint = key(4);
    expected.token1_mint = key(5);
    expected.token0_treasury = key(6);
    expected.token1_treasury = key(7);
    expected.protocol_wallet = key(WALLET);
    expected.total_shares = 0x0102_0304_0506_0708;
    expected.treasury_token0 = 1_000;
    expected.treasury_token1 = 2_000;
    expected.token0_decimals = 9;
    expected.token1_decimals = 6;
    expected.bump = 251;
    expected.token0_treasury_bump = 252;
    expected.token1_treasury_bump = 253;
    expected.share_mint_bump = 254;
    assert_eq!(bytes, write_account(&[1, 2, 3, 4, 5, 6, 7, 8], &expected));
    // Once more does nothing, whoever asks.
    let mut other = accounts();
    other.admin = key(77);
    let again = handler(&bytes, &other, &key(WALLET), &key(CLMM), &[]);
    assert!(matches!(again, Ok(Migration::AlreadyMigrated)));
}

#[test]
fn shares_fall_back_to_the_supply() {
    let mut data = older();
    data[264..272].copy_from_slice(&[0; 8]);
    let bytes = rewritten(migrate(&data, &[]));
    assert_eq!(bytes[264..272], 4_242u64.to_le_bytes());
    let bytes = rewritten(migrate(&older()[..100], &[]));
    assert_eq!(bytes[264..272], 4_242u64.to_le_bytes());
    assert_eq!(bytes.len(), Vault::LEN);
}

#[test]
fn a_migration_is_refused() {
    let refused = |r: Result<Migration, VaultError>| r.unwrap_err();
    assert_eq!(refused(migrate(&older()[..39], &[])), VaultError::Unauthorized);
    let mut data = older();
    data[8] = 0;
    assert_eq!(refused(migrate(&data, &[])), VaultError::Unauthorized);
    let mut data = older();
    data[343] = 1;
    assert_eq!(refused(migrate(&data, &[])), VaultError::PositionAlreadyExists);
    let with = |change: fn(&mut MigrateVault)| {
        let mut a = accounts();
        change(&mut a);
        handler(&older(), &a, &key(WALLET), &key(CLMM), &[]).unwrap_err()
    };
    assert_eq!(with(|a| a.token0_mint.key = key(9)), VaultError::InvalidMint);
    assert_eq!(with(|a| a.token1_mint.key = key(9)), VaultError::InvalidMint);
    assert_eq!(with(|a| a.pool_owner = key(9)), VaultError::InvalidPriceFeed);
}

#[test]
fn a_flagged_position_must_be_empty() {
    let mut data = older();
    data[326] = 1;
    let mut record = vec![0u8; 97];
    let migrate_at = |address: Pubkey, record: &[u8]| {
        let mut a = accounts();
        a.personal_position = address;
        handler(&data, &a, &key(WALLET), &key(CLMM), record)
    };
    let program = anchor_lang::prelude::Pubkey::new_from_array(key(CLMM).bytes);
    let (found, _) = anchor_lang::prelude::Pubkey::find_program_address(
        &[b"position", &key(POSITION).bytes],
        &program,
    );
    let real = Pubkey { bytes: found.to_bytes() };
    assert_eq!(migrate_at(key(POSITION), &record).unwrap_err(), VaultError::InvalidPosition);
    assert_eq!(migrate_at(real, &record[..96]).unwrap_err(), VaultError::InvalidPosition);
    assert_eq!(rewritten(migrate_at(real, &record))[326], 0);
    record[96] = 1;
    assert_eq!(migrate_at(real, &record).unwrap_err(), VaultError::PositionAlreadyExists);
    // Where no address is derived none is right.
    let r = migrate_with(&data, &accounts(), &key(WALLET), &key(CLMM), None, &record);
    assert_eq!(r.unwrap_err(), VaultError::InvalidPosition);
}

#[test]
fn rent_is_topped_up() {
    assert_eq!(rent_shortfall(5, 8), 3);
    assert_eq!(rent_shortfall(8, 5), 0);
}
