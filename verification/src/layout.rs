//! How a vault account is laid out in bytes.
//!
//! After an 8-byte discriminator come the vault's fields in order, each number
//! little-endian and each flag one byte. What a migration reads of an older
//! account (the admin, the pool, the shares and the position) lies where it lies
//! here.

use crate::bytes::{
    field, le_bytes, le_nat, lemma_le_bytes_len, lemma_le_round_trip, lemma_pow256, push_le,
    unsigned,
};
use crate::pubkey::Pubkey;
use crate::state::Vault;
use vstd::arithmetic::div_mod::lemma_div_denominator;
use vstd::arithmetic::power::{lemma_pow0, lemma_pow_positive, pow};
use vstd::prelude::*;

verus! {

/// Length of the discriminator.
pub const DISCRIMINATOR_LEN: usize = 8;

/// Where the admin is.
pub const ADMIN_OFFSET: usize = 8;

/// Where the pool is.
pub const POOL_ID_OFFSET: usize = 72;

/// Where the number of shares is.
pub const TOTAL_SHARES_OFFSET: usize = 264;

/// Where the mint of the position's token is.
pub const POSITION_MINT_OFFSET: usize = 294;

/// Where the flag for a position is.
pub const HAS_ACTIVE_POSITION_OFFSET: usize = 326;

/// Where the position's liquidity is.
pub const POSITION_LIQUIDITY_OFFSET: usize = 343;

/// A flag as one byte.
pub open spec fn flag_byte(flag: bool) -> Seq<u8> {
    if flag {
        seq![1u8]
    } else {
        seq![0u8]
    }
}

/// A two's complement number of 32 bits.
pub open spec fn i32_bytes(n: i32) -> Seq<u8> {
    le_bytes(unsigned(n as int, 0x1_0000_0000), 4)
}

/// A two's complement number of 64 bits.
pub open spec fn i64_bytes(n: i64) -> Seq<u8> {
    le_bytes(unsigned(n as int, 0x1_0000_0000_0000_0000), 8)
}

/// The addresses at the head of the vault.
pub open spec fn key_bytes(v: Vault) -> Seq<u8> {
    v.admin@ + v.share_mint@ + v.pool_id@ + v.token0_mint@ + v.token1_mint@ + v.token0_treasury@
        + v.token1_treasury@ + v.protocol_wallet@
}

/// The shares, the treasuries, the decimals and the bumps.
pub open spec fn treasury_bytes(v: Vault) -> Seq<u8> {
    le_bytes(v.total_shares as int, 8) + le_bytes(v.treasury_token0 as int, 8) + le_bytes(
        v.treasury_token1 as int,
        8,
    ) + seq![
        v.token0_decimals,
        v.token1_decimals,
        v.bump,
        v.token0_treasury_bump,
        v.token1_treasury_bump,
        v.share_mint_bump,
    ]
}

/// The position.
pub open spec fn position_bytes(v: Vault) -> Seq<u8> {
    v.position_mint@ + flag_byte(v.has_active_position) + le_bytes(v.position_token0 as int, 8)
        + le_bytes(v.position_token1 as int, 8) + le_bytes(v.position_liquidity as int, 16)
        + i32_bytes(v.position_tick_lower) + i32_bytes(v.position_tick_upper)
}

/// The rest: flags, proposed admin, fees, operator and rate limits.
pub open spec fn control_bytes(v: Vault) -> Seq<u8> {
    flag_byte(v.is_paused) + flag_byte(v.is_rebalancing) + v.pending_admin@ + le_bytes(
        v.accumulated_protocol_fees_token0 as int,
        8,
    ) + le_bytes(v.accumulated_protocol_fees_token1 as int, 8) + i64_bytes(v.rebalance_started_at)
        + v.operator@ + i64_bytes(v.swap_window_start) + le_bytes(
        v.swap_volume_in_window as int,
        8,
    ) + le_bytes(v.last_fee_collection_slot as int, 8) + i64_bytes(v.last_swap_at)
}

/// A vault account with the given discriminator.
pub open spec fn account_bytes(discriminator: Seq<u8>, v: Vault) -> Seq<u8> {
    discriminator + key_bytes(v) + treasury_bytes(v) + position_bytes(v) + control_bytes(v)
}

/// Appends `bytes`.
fn push_bytes(out: &mut Vec<u8>, bytes: &[u8])
    ensures
        final(out)@ == old(out)@ + bytes@,
{
    let ghost before = out@;
    let mut i: usize = 0;
    while i < bytes.len()
        invariant
            i <= bytes.len(),
            out@ == before + bytes@.subrange(0, i as int),
        decreases bytes.len() - i,
    {
        out.push(bytes[i]);
        i = i + 1;
        assert(before + bytes@.subrange(0, i as int) =~= (before + bytes@.subrange(0, i - 1)).push(
            bytes@[i - 1],
        ));
    }
    assert(bytes@.subrange(0, i as int) =~= bytes@);
}

/// Appends an address.
fn push_key(out: &mut Vec<u8>, key: &Pubkey)
    ensures
        final(out)@ == old(out)@ + key@,
{
    push_bytes(out, &key.bytes);
}

/// Appends a flag.
fn push_flag(out: &mut Vec<u8>, flag: bool)
    ensures
        final(out)@ == old(out)@ + flag_byte(flag),
{
    let ghost before = out@;
    if flag {
        out.push(1);
    } else {
        out.push(0);
    }
    assert(out@ =~= before + flag_byte(flag));
}

/// Appends a two's complement number of 32 bits.
fn push_i32(out: &mut Vec<u8>, n: i32)
    ensures
        final(out)@ == old(out)@ + i32_bytes(n),
{
    let wide: i64 = n as i64;
    let digits: i64 = if wide < 0 {
        wide + 0x1_0000_0000
    } else {
        wide
    };
    push_le(out, digits as u128, 4);
}

/// Appends a two's complement number of 64 bits.
fn push_i64(out: &mut Vec<u8>, n: i64)
    ensures
        final(out)@ == old(out)@ + i64_bytes(n),
{
    let wide: i128 = n as i128;
    let digits: i128 = if wide < 0 {
        wide + 0x1_0000_0000_0000_0000
    } else {
        wide
    };
    push_le(out, digits as u128, 8);
}

/// Appends the addresses at the head of a vault.
fn push_keys(out: &mut Vec<u8>, v: &Vault)
    ensures
        final(out)@ == old(out)@ + key_bytes(*v),
{
    let ghost before = out@;
    push_key(out, &v.admin);
    push_key(out, &v.share_mint);
    push_key(out, &v.pool_id);
    push_key(out, &v.token0_mint);
    push_key(out, &v.token1_mint);
    push_key(out, &v.token0_treasury);
    push_key(out, &v.token1_treasury);
    push_key(out, &v.protocol_wallet);
    assert(out@ =~= before + key_bytes(*v));
}

/// Appends the shares, the treasuries, the decimals and the bumps.
fn push_treasury(out: &mut Vec<u8>, v: &Vault)
    ensures
        final(out)@ == old(out)@ + treasury_bytes(*v),
{
    let ghost before = out@;
    push_le(out, v.total_shares as u128, 8);
    push_le(out, v.treasury_token0 as u128, 8);
    push_le(out, v.treasury_token1 as u128, 8);
    out.push(v.token0_decimals);
    out.push(v.token1_decimals);
    out.push(v.bump);
    out.push(v.token0_treasury_bump);
    out.push(v.token1_treasury_bump);
    out.push(v.share_mint_bump);
    assert(out@ =~= before + treasury_bytes(*v));
}

/// Appends the position.
fn push_position(out: &mut Vec<u8>, v: &Vault)
    ensures
        final(out)@ == old(out)@ + position_bytes(*v),
{
    let ghost before = out@;
    push_key(out, &v.position_mint);
    push_flag(out, v.has_active_position);
    push_le(out, v.position_token0 as u128, 8);
    push_le(out, v.position_token1 as u128, 8);
    push_le(out, v.position_liquidity, 16);
    push_i32(out, v.position_tick_lower);
    push_i32(out, v.position_tick_upper);
    assert(out@ =~= before + position_bytes(*v));
}

/// Appends flags, proposed admin, fees, operator and rate limits.
fn push_control(out: &mut Vec<u8>, v: &Vault)
    ensures
        final(out)@ == old(out)@ + control_bytes(*v),
{
    let ghost before = out@;
    push_flag(out, v.is_paused);
    push_flag(out, v.is_rebalancing);
    push_key(out, &v.pending_admin);
    push_le(out, v.accumulated_protocol_fees_token0 as u128, 8);
    push_le(out, v.accumulated_protocol_fees_token1 as u128, 8);
    push_i64(out, v.rebalance_started_at);
    push_key(out, &v.operator);
    push_i64(out, v.swap_window_start);
    push_le(out, v.swap_volume_in_window as u128, 8);
    push_le(out, v.last_fee_collection_slot as u128, 8);
    push_i64(out, v.last_swap_at);
    assert(out@ =~= before + control_bytes(*v));
}

/// Lays out a vault account with the given discriminator.
pub fn write_account(discriminator: &[u8], v: &Vault) -> (r: Vec<u8>)
    ensures
        r@ == account_bytes(discriminator@, *v),
{
    let mut out: Vec<u8> = Vec::new();
    push_bytes(&mut out, discriminator);
    assert(out@ =~= discriminator@);
    push_keys(&mut out, v);
    push_treasury(&mut out, v);
    push_position(&mut out, v);
    push_control(&mut out, v);
    out
}

/// Lengths of the parts of a vault account.
proof fn lemma_part_lengths(v: Vault)
    ensures
        key_bytes(v).len() == 256,
        treasury_bytes(v).len() == 30,
        position_bytes(v).len() == 73,
        control_bytes(v).len() == 122,
{
    lemma_le_bytes_len(v.total_shares as int, 8);
    lemma_le_bytes_len(v.treasury_token0 as int, 8);
    lemma_le_bytes_len(v.treasury_token1 as int, 8);
    lemma_le_bytes_len(v.position_token0 as int, 8);
    lemma_le_bytes_len(v.position_token1 as int, 8);
    lemma_le_bytes_len(v.position_liquidity as int, 16);
    lemma_le_bytes_len(unsigned(v.position_tick_lower as int, 0x1_0000_0000), 4);
    lemma_le_bytes_len(unsigned(v.position_tick_upper as int, 0x1_0000_0000), 4);
    lemma_le_bytes_len(v.accumulated_protocol_fees_token0 as int, 8);
    lemma_le_bytes_len(v.accumulated_protocol_fees_token1 as int, 8);
    lemma_le_bytes_len(unsigned(v.rebalance_started_at as int, 0x1_0000_0000_0000_0000), 8);
    lemma_le_bytes_len(unsigned(v.swap_window_start as int, 0x1_0000_0000_0000_0000), 8);
    lemma_le_bytes_len(v.swap_volume_in_window as int, 8);
    lemma_le_bytes_len(v.last_fee_collection_slot as int, 8);
    lemma_le_bytes_len(unsigned(v.last_swap_at as int, 0x1_0000_0000_0000_0000), 8);
}

/// A vault account is as long as it is declared to be, and what a migration
/// reads lies at the offsets named here.
pub proof fn law_fields_lie_at_their_offsets(discriminator: Seq<u8>, v: Vault)
    requires
        discriminator.len() == DISCRIMINATOR_LEN,
    ensures
        ({
            let data = account_bytes(discriminator, v);
            &&& data.len() == Vault::LEN
            &&& field(data, 0, DISCRIMINATOR_LEN as int) == discriminator
            &&& field(data, ADMIN_OFFSET as int, 32) == v.admin@
            &&& field(data, POOL_ID_OFFSET as int, 32) == v.pool_id@
            &&& le_nat(field(data, TOTAL_SHARES_OFFSET as int, 8)) == v.total_shares
            &&& field(data, POSITION_MINT_OFFSET as int, 32) == v.position_mint@
            &&& (data[HAS_ACTIVE_POSITION_OFFSET as int] == 1) == v.has_active_position
            &&& le_nat(field(data, POSITION_LIQUIDITY_OFFSET as int, 16)) == v.position_liquidity
        }),
{
    let data = account_bytes(discriminator, v);
    lemma_part_lengths(v);
    lemma_le_bytes_len(v.total_shares as int, 8);
    lemma_le_bytes_len(v.treasury_token0 as int, 8);
    lemma_le_bytes_len(v.treasury_token1 as int, 8);
    lemma_le_bytes_len(v.position_token0 as int, 8);
    lemma_le_bytes_len(v.position_token1 as int, 8);
    lemma_le_bytes_len(v.position_liquidity as int, 16);
    lemma_pow256();
    lemma_le_round_trip(v.total_shares as int, 8);
    lemma_le_round_trip(v.position_liquidity as int, 16);
    assert(field(data, 0, 8) =~= discriminator);
    assert(field(data, 8, 256) =~= key_bytes(v));
    assert(field(data, 264, 30) =~= treasury_bytes(v));
    assert(field(data, 294, 73) =~= position_bytes(v));
    assert(field(data, 8, 32) =~= field(field(data, 8, 256), 0, 32));
    assert(field(key_bytes(v), 0, 32) =~= v.admin@);
    assert(field(data, 72, 32) =~= field(field(data, 8, 256), 64, 32));
    assert(field(key_bytes(v), 64, 32) =~= v.pool_id@);
    assert(field(data, 264, 8) =~= field(field(data, 264, 30), 0, 8));
    assert(field(treasury_bytes(v), 0, 8) =~= le_bytes(v.total_shares as int, 8));
    assert(field(data, 294, 32) =~= field(field(data, 294, 73), 0, 32));
    assert(field(position_bytes(v), 0, 32) =~= v.position_mint@);
    assert(data[326] == field(data, 294, 73)[32]);
    assert(position_bytes(v)[32] == flag_byte(v.has_active_position)[0]);
    assert(field(data, 343, 16) =~= field(field(data, 294, 73), 49, 16));
    assert(field(position_bytes(v), 49, 16) =~= le_bytes(v.position_liquidity as int, 16));
}

/// `key` lies in `data` from byte `at` on.
pub open spec fn lies_at(data: Seq<u8>, at: int, key: Seq<u8>) -> bool {
    forall|i: int| 0 <= i < key.len() ==> #[trigger] data[at + i] == key[i]
}

/// The `width` bytes of `data` from `at` on are the digits of `n` to the base 256,
/// the lowest first.
pub open spec fn spells(data: Seq<u8>, at: int, width: int, n: int) -> bool {
    forall|i: int|
        0 <= i < width ==> #[trigger] data[at + i] == (n / pow(256, i as nat)) % 256
}

/// Byte `i` of a number is its digit.
proof fn lemma_digit(n: int, width: nat, i: int)
    requires
        0 <= n,
        0 <= i < width,
    ensures
        le_bytes(n, width).len() == width,
        le_bytes(n, width)[i] == (n / pow(256, i as nat)) % 256,
    decreases width,
{
    let next = (width - 1) as nat;
    lemma_le_bytes_len(n, width);
    lemma_le_bytes_len(n / 256, next);
    if i == 0 {
        lemma_pow0(256);
    } else {
        lemma_digit(n / 256, next, i - 1);
        let p = pow(256, (i - 1) as nat);
        lemma_pow_positive(256, (i - 1) as nat);
        reveal(pow);
        assert(pow(256, i as nat) == 256 * p);
        lemma_div_denominator(n, 256, p);
    }
}

/// A number laid out at a place spells itself there.
proof fn lemma_spells(data: Seq<u8>, at: int, width: nat, n: int)
    requires
        0 <= n,
        0 <= at,
        at + width <= data.len(),
        field(data, at, width as int) == le_bytes(n, width),
    ensures
        spells(data, at, width as int, n),
{
    assert forall|i: int| 0 <= i < width implies #[trigger] data[at + i] == (n / pow(
        256,
        i as nat,
    )) % 256 by {
        lemma_digit(n, width, i);
        assert(field(data, at, width as int)[i] == data[at + i]);
    }
}

/// A key laid out at a place lies there.
proof fn lemma_lies_at(data: Seq<u8>, at: int, key: Seq<u8>)
    requires
        0 <= at,
        at + key.len() <= data.len(),
        field(data, at, key.len() as int) == key,
    ensures
        lies_at(data, at, key),
{
    assert forall|i: int| 0 <= i < key.len() implies #[trigger] data[at + i] == key[i] by {
        assert(field(data, at, key.len() as int)[i] == data[at + i]);
    }
}

/// `data` is the account of the vault `v` with the given discriminator: 489 bytes
/// in which every field has a place of its own. Addresses lie byte for byte,
/// numbers with their lowest byte first, negative ones counted down from their
/// range, and flags as one or zero.
pub open spec fn is_laid_out(data: Seq<u8>, discriminator: Seq<u8>, v: Vault) -> bool {
    &&& data.len() == 489
    &&& lies_at(data, 0, discriminator)
    &&& lies_at(data, 8, v.admin@)
    &&& lies_at(data, 40, v.share_mint@)
    &&& lies_at(data, 72, v.pool_id@)
    &&& lies_at(data, 104, v.token0_mint@)
    &&& lies_at(data, 136, v.token1_mint@)
    &&& lies_at(data, 168, v.token0_treasury@)
    &&& lies_at(data, 200, v.token1_treasury@)
    &&& lies_at(data, 232, v.protocol_wallet@)
    &&& lies_at(data, 294, v.position_mint@)
    &&& lies_at(data, 369, v.pending_admin@)
    &&& lies_at(data, 425, v.operator@)
    &&& spells(data, 264, 8, v.total_shares as int)
    &&& spells(data, 272, 8, v.treasury_token0 as int)
    &&& spells(data, 280, 8, v.treasury_token1 as int)
    &&& spells(data, 327, 8, v.position_token0 as int)
    &&& spells(data, 335, 8, v.position_token1 as int)
    &&& spells(data, 401, 8, v.accumulated_protocol_fees_token0 as int)
    &&& spells(data, 409, 8, v.accumulated_protocol_fees_token1 as int)
    &&& spells(data, 465, 8, v.swap_volume_in_window as int)
    &&& spells(data, 473, 8, v.last_fee_collection_slot as int)
    &&& spells(data, 343, 16, v.position_liquidity as int)
    &&& v.position_tick_lower >= 0 ==> spells(data, 359, 4, v.position_tick_lower as int)
    &&& v.position_tick_lower < 0 ==> spells(data, 359, 4, 0x1_0000_0000 + v.position_tick_lower)
    &&& v.position_tick_upper >= 0 ==> spells(data, 363, 4, v.position_tick_upper as int)
    &&& v.position_tick_upper < 0 ==> spells(data, 363, 4, 0x1_0000_0000 + v.position_tick_upper)
    &&& v.rebalance_started_at >= 0 ==> spells(data, 417, 8, v.rebalance_started_at as int)
    &&& v.rebalance_started_at < 0 ==> spells(data, 417, 8, 0x1_0000_0000_0000_0000 + v.rebalance_started_at)
    &&& v.swap_window_start >= 0 ==> spells(data, 457, 8, v.swap_window_start as int)
    &&& v.swap_window_start < 0 ==> spells(data, 457, 8, 0x1_0000_0000_0000_0000 + v.swap_window_start)
    &&& v.last_swap_at >= 0 ==> spells(data, 481, 8, v.last_swap_at as int)
    &&& v.last_swap_at < 0 ==> spells(data, 481, 8, 0x1_0000_0000_0000_0000 + v.last_swap_at)
    &&& data[288] == v.token0_decimals
    &&& data[289] == v.token1_decimals
    &&& data[290] == v.bump
    &&& data[291] == v.token0_treasury_bump
    &&& data[292] == v.token1_treasury_bump
    &&& data[293] == v.share_mint_bump
    &&& data[326] == (if v.has_active_position {
        1u8
    } else {
        0u8
    })
    &&& data[367] == (if v.is_paused {
        1u8
    } else {
        0u8
    })
    &&& data[368] == (if v.is_rebalancing {
        1u8
    } else {
        0u8
    })
}

/// The bytes of an account are laid out as they should be.
pub proof fn lemma_laid_out(discriminator: Seq<u8>, v: Vault)
    requires
        discriminator.len() == 8,
    ensures
        is_laid_out(account_bytes(discriminator, v), discriminator, v),
{
    let data = account_bytes(discriminator, v);
    let keys = key_bytes(v);
    let treasury = treasury_bytes(v);
    let position = position_bytes(v);
    let control = control_bytes(v);
    lemma_part_lengths(v);
    lemma_le_bytes_len(v.total_shares as int, 8);
    lemma_le_bytes_len(v.treasury_token0 as int, 8);
    lemma_le_bytes_len(v.treasury_token1 as int, 8);
    lemma_le_bytes_len(v.position_token0 as int, 8);
    lemma_le_bytes_len(v.position_token1 as int, 8);
    lemma_le_bytes_len(v.accumulated_protocol_fees_token0 as int, 8);
    lemma_le_bytes_len(v.accumulated_protocol_fees_token1 as int, 8);
    lemma_le_bytes_len(v.swap_volume_in_window as int, 8);
    lemma_le_bytes_len(v.last_fee_collection_slot as int, 8);
    lemma_le_bytes_len(v.position_liquidity as int, 16);
    lemma_le_bytes_len(unsigned(v.position_tick_lower as int, 0x1_0000_0000), 4);
    lemma_le_bytes_len(unsigned(v.position_tick_upper as int, 0x1_0000_0000), 4);
    lemma_le_bytes_len(unsigned(v.rebalance_started_at as int, 0x1_0000_0000_0000_0000), 8);
    lemma_le_bytes_len(unsigned(v.swap_window_start as int, 0x1_0000_0000_0000_0000), 8);
    lemma_le_bytes_len(unsigned(v.last_swap_at as int, 0x1_0000_0000_0000_0000), 8);
    assert(field(data, 0, 8) =~= discriminator);
    assert(field(data, 8, 256) =~= keys);
    assert(field(data, 264, 30) =~= treasury);
    assert(field(data, 294, 73) =~= position);
    assert(field(data, 367, 122) =~= control);
    lemma_lies_at(data, 0, discriminator);
    assert(field(keys, 0, 32) =~= v.admin@);
    assert(field(data, 8, 32) =~= field(keys, 0, 32));
    lemma_lies_at(data, 8, v.admin@);
    assert(field(keys, 32, 32) =~= v.share_mint@);
    assert(field(data, 40, 32) =~= field(keys, 32, 32));
    lemma_lies_at(data, 40, v.share_mint@);
    assert(field(keys, 64, 32) =~= v.pool_id@);
    assert(field(data, 72, 32) =~= field(keys, 64, 32));
    lemma_lies_at(data, 72, v.pool_id@);
    assert(field(keys, 96, 32) =~= v.token0_mint@);
    assert(field(data, 104, 32) =~= field(keys, 96, 32));
    lemma_lies_at(data, 104, v.token0_mint@);
    assert(field(keys, 128, 32) =~= v.token1_mint@);
    assert(field(data, 136, 32) =~= field(keys, 128, 32));
    lemma_lies_at(data, 136, v.token1_mint@);
    assert(field(keys, 160, 32) =~= v.token0_treasury@);
    assert(field(data, 168, 32) =~= field(keys, 160, 32));
    lemma_lies_at(data, 168, v.token0_treasury@);
    assert(field(keys, 192, 32) =~= v.token1_treasury@);
    assert(field(data, 200, 32) =~= field(keys, 192, 32));
    lemma_lies_at(data, 200, v.token1_treasury@);
    assert(field(keys, 224, 32) =~= v.protocol_wallet@);
    assert(field(data, 232, 32) =~= field(keys, 224, 32));
    lemma_lies_at(data, 232, v.protocol_wallet@);
    assert(field(position, 0, 32) =~= v.position_mint@);
    assert(field(data, 294, 32) =~= field(position, 0, 32));
    lemma_lies_at(data, 294, v.position_mint@);
    assert(field(control, 2, 32) =~= v.pending_admin@);
    assert(field(data, 369, 32) =~= field(control, 2, 32));
    lemma_lies_at(data, 369, v.pending_admin@);
    assert(field(control, 58, 32) =~= v.operator@);
    assert(field(data, 425, 32) =~= field(control, 58, 32));
    lemma_lies_at(data, 425, v.operator@);
    assert(field(treasury, 0, 8) =~= le_bytes(v.total_shares as int, 8));
    assert(field(data, 264, 8) =~= field(treasury, 0, 8));
    lemma_spells(data, 264, 8, v.total_shares as int);
    assert(field(treasury, 8, 8) =~= le_bytes(v.treasury_token0 as int, 8));
    assert(field(data, 272, 8) =~= field(treasury, 8, 8));
    lemma_spells(data, 272, 8, v.treasury_token0 as int);
    assert(field(treasury, 16, 8) =~= le_bytes(v.treasury_token1 as int, 8));
    assert(field(data, 280, 8) =~= field(treasury, 16, 8));
    lemma_spells(data, 280, 8, v.treasury_token1 as int);
    assert(field(position, 33, 8) =~= le_bytes(v.position_token0 as int, 8));
    assert(field(data, 327, 8) =~= field(position, 33, 8));
    lemma_spells(data, 327, 8, v.position_token0 as int);
    assert(field(position, 41, 8) =~= le_bytes(v.position_token1 as int, 8));
    assert(field(data, 335, 8) =~= field(position, 41, 8));
    lemma_spells(data, 335, 8, v.position_token1 as int);
    assert(field(control, 34, 8) =~= le_bytes(v.accumulated_protocol_fees_token0 as int, 8));
    assert(field(data, 401, 8) =~= field(control, 34, 8));
    lemma_spells(data, 401, 8, v.accumulated_protocol_fees_token0 as int);
    assert(field(control, 42, 8) =~= le_bytes(v.accumulated_protocol_fees_token1 as int, 8));
    assert(field(data, 409, 8) =~= field(control, 42, 8));
    lemma_spells(data, 409, 8, v.accumulated_protocol_fees_token1 as int);
    assert(field(control, 98, 8) =~= le_bytes(v.swap_volume_in_window as int, 8));
    assert(field(data, 465, 8) =~= field(control, 98, 8));
    lemma_spells(data, 465, 8, v.swap_volume_in_window as int);
    assert(field(control, 106, 8) =~= le_bytes(v.last_fee_collection_slot as int, 8));
    assert(field(data, 473, 8) =~= field(control, 106, 8));
    lemma_spells(data, 473, 8, v.last_fee_collection_slot as int);
    assert(field(position, 49, 16) =~= le_bytes(v.position_liquidity as int, 16));
    assert(field(data, 343, 16) =~= field(position, 49, 16));
    lemma_spells(data, 343, 16, v.position_liquidity as int);
    assert(field(position, 65, 4) =~= le_bytes(unsigned(v.position_tick_lower as int, 0x1_0000_0000), 4));
    assert(field(data, 359, 4) =~= field(position, 65, 4));
    lemma_spells(data, 359, 4, unsigned(v.position_tick_lower as int, 0x1_0000_0000));
    assert(field(position, 69, 4) =~= le_bytes(unsigned(v.position_tick_upper as int, 0x1_0000_0000), 4));
    assert(field(data, 363, 4) =~= field(position, 69, 4));
    lemma_spells(data, 363, 4, unsigned(v.position_tick_upper as int, 0x1_0000_0000));
    assert(field(control, 50, 8) =~= le_bytes(unsigned(v.rebalance_started_at as int, 0x1_0000_0000_0000_0000), 8));
    assert(field(data, 417, 8) =~= field(control, 50, 8));
    lemma_spells(data, 417, 8, unsigned(v.rebalance_started_at as int, 0x1_0000_0000_0000_0000));
    assert(field(control, 90, 8) =~= le_bytes(unsigned(v.swap_window_start as int, 0x1_0000_0000_0000_0000), 8));
    assert(field(data, 457, 8) =~= field(control, 90, 8));
    lemma_spells(data, 457, 8, unsigned(v.swap_window_start as int, 0x1_0000_0000_0000_0000));
    assert(field(control, 114, 8) =~= le_bytes(unsigned(v.last_swap_at as int, 0x1_0000_0000_0000_0000), 8));
    assert(field(data, 481, 8) =~= field(control, 114, 8));
    lemma_spells(data, 481, 8, unsigned(v.last_swap_at as int, 0x1_0000_0000_0000_0000));
    assert(data[288] == field(data, 264, 30)[24]);
    assert(data[289] == field(data, 264, 30)[25]);
    assert(data[290] == field(data, 264, 30)[26]);
    assert(data[291] == field(data, 264, 30)[27]);
    assert(data[292] == field(data, 264, 30)[28]);
    assert(data[293] == field(data, 264, 30)[29]);
    assert(data[326] == field(data, 294, 73)[32]);
    assert(data[367] == field(data, 367, 122)[0]);
    assert(data[368] == field(data, 367, 122)[1]);
}

/// Writing an account puts every field at its place.
pub proof fn law_every_field_has_its_place(discriminator: &[u8], v: Vault, r: Vec<u8>)
    requires
        discriminator@.len() == 8,
        call_ensures(write_account, (discriminator, &v), r),
    ensures
        is_laid_out(r@, discriminator@, v),
{
    lemma_laid_out(discriminator@, v);
}

} // verus!
