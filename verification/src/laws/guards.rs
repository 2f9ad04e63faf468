//! What the guard against manipulated prices lets through.

use crate::accounts::{check_position_account, is_derived_address};
use crate::bytes::{read_i32, read_i64, read_le, read_u32, read_u64};
use crate::errors::VaultError;
use crate::oracle::{
    can_check_feed, check_feed, check_price_not_manipulated, names_pool, observation_pool_id,
    oracle_window_fits, reference_sqrt_price,
};
use crate::price::{
    read_pool_sqrt_price_x64, read_pool_tick_current, read_pool_token_mint_0, sqrt_within_deviation,
};
use crate::pubkey::{lemma_key_ext, program_address, Pubkey};
use crate::seeds;
use vstd::prelude::*;

verus! {

/// A number is read with its least significant byte first: it is its first byte,
/// and 256 times the number that the bytes after it spell.
pub proof fn law_numbers_are_little_endian(
    data: &[u8],
    at: usize,
    after: usize,
    width: usize,
    r: u128,
    tail: u128,
)
    requires
        at + width <= data@.len(),
        call_ensures(read_le, (data, at, width), r),
        after == at + 1,
        width > 0 ==> call_ensures(read_le, (data, after, (width - 1) as usize), tail),
    ensures
        width == 0 ==> r == 0,
        width > 0 ==> r == data@[at as int] + 256 * tail,
{
    let s = data@.subrange(at as int, at + width);
    if width > 0 {
        assert(s.drop_first() =~= data@.subrange(at + 1, at + width));
    }
}

/// Numbers of 32 and 64 bits are four and eight bytes, and a signed one is less by
/// its whole range where its highest bit is set.
pub proof fn law_signed_numbers_wrap(
    data: &[u8],
    at: usize,
    four: u128,
    eight: u128,
    word: u32,
    long: u64,
    signed_word: i32,
    signed_long: i64,
)
    requires
        call_ensures(read_le, (data, at, 4), four),
        call_ensures(read_le, (data, at, 8), eight),
        call_ensures(read_u32, (data, at), word),
        call_ensures(read_u64, (data, at), long),
        call_ensures(read_i32, (data, at), signed_word),
        call_ensures(read_i64, (data, at), signed_long),
    ensures
        word == four,
        long == eight,
        signed_word == four || signed_word == four - 0x1_0000_0000,
        signed_word < 0 <==> four >= 0x8000_0000,
        signed_long == eight || signed_long == eight - 0x1_0000_0000_0000_0000,
        signed_long < 0 <==> eight >= 0x8000_0000_0000_0000,
{
}

/// An address is read byte for byte.
pub proof fn law_addresses_are_read_byte_for_byte(data: &[u8], at: usize, i: int, r: Pubkey)
    requires
        at + 32 <= data@.len(),
        0 <= i < 32,
        call_ensures(Pubkey::read, (data, at), r),
    ensures
        r@[i] == data@[at + i],
{
}

/// A pool account keeps its first mint at byte 73, its square-root price at byte
/// 253 and its tick at byte 269, and gives each if it is long enough to hold it.
pub proof fn law_pool_fields_lie_at_their_offsets(
    data: &[u8],
    mint: Option<Pubkey>,
    sqrt_price_x64: Option<u128>,
    tick: Option<i32>,
    sixteen: u128,
    word: i32,
)
    requires
        call_ensures(read_pool_token_mint_0, (data,), mint),
        call_ensures(read_pool_sqrt_price_x64, (data,), sqrt_price_x64),
        call_ensures(read_pool_tick_current, (data,), tick),
        data@.len() >= 269 ==> call_ensures(read_le, (data, 253, 16), sixteen),
        data@.len() >= 273 ==> call_ensures(read_i32, (data, 269), word),
    ensures
        mint is Some <==> data@.len() >= 105,
        mint is Some ==> forall|i: int| 0 <= i < 32 ==> #[trigger] mint->0@[i] == data@[73 + i],
        data@.len() >= 269 ==> sqrt_price_x64 == Some(sixteen),
        data@.len() < 269 ==> sqrt_price_x64 is None,
        data@.len() >= 273 ==> tick == Some(word),
        data@.len() < 273 ==> tick is None,
{
}

/// An observation account names its pool at byte 19, if it is long enough.
pub proof fn law_observations_name_their_pool(
    obs_data: &[u8],
    pool_id: Pubkey,
    named: Option<Pubkey>,
    r: bool,
)
    requires
        call_ensures(observation_pool_id, (obs_data,), named),
        call_ensures(names_pool, (obs_data, &pool_id), r),
    ensures
        named is Some <==> obs_data@.len() >= 51,
        named is Some ==> forall|i: int|
            0 <= i < 32 ==> #[trigger] named->0@[i] == obs_data@[19 + i],
        r <==> named == Some(pool_id),
{
    if named is Some && named->0@ == pool_id@ {
        lemma_key_ext(named->0, pool_id);
    }
}

/// A spot price passes if and only if it is within the band around the reference,
/// or there is no reference and none is required.
pub proof fn law_price_passes_within_the_band(
    spot: u128,
    obs_data: &[u8],
    require_reference: bool,
    bps: u128,
    reference: Option<u128>,
    near: bool,
    r: Result<(), VaultError>,
)
    requires
        call_ensures(
            check_price_not_manipulated,
            (spot, obs_data, require_reference, bps),
            r,
        ),
        call_ensures(reference_sqrt_price, (obs_data,), reference),
        reference is Some ==> call_ensures(
            sqrt_within_deviation,
            (spot, reference->0, bps),
            near,
        ),
    ensures
        reference is Some ==> (r is Ok <==> near),
        reference is None ==> (r is Ok <==> !require_reference),
        r is Err ==> r->Err_0 == (if reference is Some {
            VaultError::PriceManipulationDetected
        } else {
            VaultError::OracleUnavailable
        }),
{
}

/// Observations count only if they are the pool program's and name the pool. Then
/// the price is held against them.
pub proof fn law_feed_is_the_pools_own(
    pool_id: Pubkey,
    observation_owner: Pubkey,
    clmm_program: Pubkey,
    spot: u128,
    obs_data: &[u8],
    require_reference: bool,
    bps: u128,
    named: bool,
    priced: Result<(), VaultError>,
    r: Result<(), VaultError>,
)
    requires
        call_ensures(
            check_feed,
            (
                &pool_id,
                &observation_owner,
                &clmm_program,
                spot,
                obs_data,
                require_reference,
                bps,
            ),
            r,
        ),
        call_ensures(names_pool, (obs_data, &pool_id), named),
        call_ensures(
            check_price_not_manipulated,
            (spot, obs_data, require_reference, bps),
            priced,
        ),
    ensures
        observation_owner == clmm_program && named ==> r == priced,
        observation_owner != clmm_program || !named ==> r == Err::<(), VaultError>(
            VaultError::InvalidPriceFeed,
        ),
{
}

/// The guard may be asked wherever the answer is that it may. That is so of
/// observations that are not the pool's own, of those without a reference, and of
/// those whose window fits.
pub proof fn law_feed_can_be_checked(
    pool_id: Pubkey,
    observation_owner: Pubkey,
    clmm_program: Pubkey,
    spot: u128,
    obs_data: &[u8],
    require_reference: bool,
    bps: u128,
    named: bool,
    fits: bool,
    reference: Option<u128>,
    r: bool,
)
    requires
        call_ensures(
            can_check_feed,
            (&pool_id, &observation_owner, &clmm_program, obs_data),
            r,
        ),
        call_ensures(names_pool, (obs_data, &pool_id), named),
        call_ensures(oracle_window_fits, (obs_data,), fits),
        call_ensures(reference_sqrt_price, (obs_data,), reference),
    ensures
        r <==> observation_owner != clmm_program || !named || fits,
        reference is None ==> fits,
        fits ==> call_requires(reference_sqrt_price, (obs_data,)),
        fits ==> call_requires(
            check_price_not_manipulated,
            (spot, obs_data, require_reference, bps),
        ),
        r ==> call_requires(
            check_feed,
            (
                &pool_id,
                &observation_owner,
                &clmm_program,
                spot,
                obs_data,
                require_reference,
                bps,
            ),
        ),
{
}

/// An account is the record of a position if and only if its address is the one
/// that the pool program derives from the word "position" and the mint of the
/// position's token. Of two accounts that are accepted for one position, both are
/// the same.
pub proof fn law_position_account_is_the_derived_one(
    key: Pubkey,
    other: Pubkey,
    derived: Option<Pubkey>,
    position_mint: Pubkey,
    clmm_program: Pubkey,
    matched: bool,
    r: Result<(), VaultError>,
    s: Result<(), VaultError>,
)
    requires
        call_ensures(is_derived_address, (&key, derived), matched),
        call_ensures(check_position_account, (&key, &position_mint, &clmm_program), r),
        call_ensures(check_position_account, (&other, &position_mint, &clmm_program), s),
    ensures
        matched <==> derived == Some(key),
        r is Ok <==> program_address(
            seq![seq![112u8, 111, 115, 105, 116, 105, 111, 110], position_mint@],
            clmm_program@,
        ) == Some(key@),
        r is Ok && s is Ok ==> key == other,
        r is Err ==> r->Err_0 == VaultError::InvalidPosition,
{
    assert(seeds::POSITION@ =~= seq![112u8, 111, 115, 105, 116, 105, 111, 110]);
    if derived is Some && derived->0@ == key@ {
        lemma_key_ext(derived->0, key);
    }
    if key@ == other@ {
        lemma_key_ext(key, other);
    }
}

} // verus!
