//! The pool's cumulative-tick oracle and the guard against manipulated prices.
//!
//! An observation account is, after an 8-byte discriminator: `initialized` (1
//! byte), `recent_epoch` (8), `observation_index` (2), `pool_id` (32), then 100
//! observations of 44 bytes. An observation is `block_timestamp` (u32),
//! `tick_cumulative` (i64) and padding. All numbers are little-endian.

use crate::bytes::{field, le_nat, read_i64, read_u32, signed};
use crate::errors::{outcome, VaultError};
use crate::math::{lemma_trunc_div_step, trunc_div};
use crate::price::{distance, sqrt_within_deviation, within_deviation};
use crate::pubkey::{lemma_key_ext, Pubkey};
use crate::tick_math::{
    get_sqrt_price_at_tick, law_sqrt_price_is_monotonic, sqrt_price_at_tick, MAX_TICK, MIN_TICK,
};
use vstd::prelude::*;

verus! {

/// Where an observation account keeps its `initialized` flag.
pub const OBS_INITIALIZED_OFFSET: usize = 8;

/// Where an observation account keeps its pool's address.
pub const OBS_POOL_ID_OFFSET: usize = 19;

/// Where the observations start.
pub const OBS_OBSERVATIONS_OFFSET: usize = 51;

/// Length of an observation.
pub const OBS_ENTRY_LEN: usize = 44;

/// Number of observations.
pub const OBS_NUM: usize = 100;

/// Least age of the reference observation, in seconds before the newest.
pub const TWAP_MIN_AGE_SECS: i64 = 30;

/// The pool that an observation account belongs to, if `obs_data` is long
/// enough to say.
pub fn observation_pool_id(obs_data: &[u8]) -> (r: Option<Pubkey>)
    ensures
        r is Some <==> obs_data@.len() >= 51,
        r matches Some(key) ==> key@ == obs_data@.subrange(19, 51),
{
    if obs_data.len() < OBS_POOL_ID_OFFSET + 32 {
        return None;
    }
    Some(Pubkey::read(obs_data, OBS_POOL_ID_OFFSET))
}

/// Where slot `i` starts.
pub open spec fn slot_start(i: int) -> int {
    51 + i * 44
}

/// The timestamp in slot `i`.
pub open spec fn slot_time(data: Seq<u8>, i: int) -> int {
    le_nat(field(data, slot_start(i), 4))
}

/// The cumulative tick in slot `i`.
pub open spec fn slot_tick(data: Seq<u8>, i: int) -> int {
    signed(le_nat(field(data, slot_start(i) + 4, 8)), 0x1_0000_0000_0000_0000)
}

/// Slot `i` lies within `data` and holds an observation. An empty slot has the
/// timestamp zero.
pub open spec fn slot_used(data: Seq<u8>, i: int) -> bool {
    &&& 0 <= i < 100
    &&& slot_start(i) + 12 <= data.len()
    &&& slot_time(data, i) != 0
}

/// The account is marked as initialized.
pub open spec fn is_initialized(data: Seq<u8>) -> bool {
    data.len() > 8 && data[8] != 0
}

/// Slot `i` is the first among those with the latest timestamp.
pub open spec fn is_newest(data: Seq<u8>, i: int) -> bool {
    &&& slot_used(data, i)
    &&& forall|j: int|
        #[trigger] slot_used(data, j) ==> slot_time(data, j) < slot_time(data, i) || (slot_time(
            data,
            j,
        ) == slot_time(data, i) && i <= j)
}

/// Slot `j` is old enough to start a window that ends at slot `newest`.
pub open spec fn is_old_enough(data: Seq<u8>, newest: int, j: int) -> bool {
    slot_used(data, j) && slot_time(data, newest) - slot_time(data, j) >= TWAP_MIN_AGE_SECS
}

/// Slot `i` is the first among the latest of those that are old enough.
pub open spec fn is_window_start(data: Seq<u8>, newest: int, i: int) -> bool {
    &&& is_old_enough(data, newest, i)
    &&& forall|j: int|
        #[trigger] is_old_enough(data, newest, j) ==> slot_time(data, j) < slot_time(data, i) || (
        slot_time(data, j) == slot_time(data, i) && i <= j)
}

/// The slots at which the averaging window starts and ends.
pub open spec fn is_window(data: Seq<u8>, old: int, newest: int) -> bool {
    is_newest(data, newest) && is_window_start(data, newest, old)
}

/// The account is initialized and its observations span a window.
pub open spec fn has_window(data: Seq<u8>) -> bool {
    is_initialized(data) && exists|old: int, newest: int| is_window(data, old, newest)
}

/// The window's first slot.
pub open spec fn window_start(data: Seq<u8>) -> int {
    (choose|w: (int, int)| is_window(data, w.0, w.1)).0
}

/// The window's last slot.
pub open spec fn window_end(data: Seq<u8>) -> int {
    (choose|w: (int, int)| is_window(data, w.0, w.1)).1
}

/// How far the cumulative tick moves over the window.
pub open spec fn window_ticks(data: Seq<u8>) -> int {
    slot_tick(data, window_end(data)) - slot_tick(data, window_start(data))
}

/// How long the window is, in seconds.
pub open spec fn window_secs(data: Seq<u8>) -> int {
    slot_time(data, window_end(data)) - slot_time(data, window_start(data))
}

/// `tick`, kept within the ticks of a pool.
pub open spec fn clamp_tick(tick: int) -> int {
    if tick < MIN_TICK {
        MIN_TICK as int
    } else if tick > MAX_TICK {
        MAX_TICK as int
    } else {
        tick
    }
}

/// The time-weighted average tick over the window, rounded toward zero and kept
/// within the ticks of a pool.
pub open spec fn average_tick(data: Seq<u8>) -> int {
    clamp_tick(trunc_div(window_ticks(data), window_secs(data)))
}

/// The reference square-root price: that of the average tick. There is none
/// without a window.
pub open spec fn reference_price(data: Seq<u8>) -> Option<u128> {
    if has_window(data) {
        Some(sqrt_price_at_tick(average_tick(data)) as u128)
    } else {
        None
    }
}

/// The movement of the cumulative tick over the window fits in 64 bits.
pub open spec fn window_fits(data: Seq<u8>) -> bool {
    has_window(data) ==> i64::MIN <= window_ticks(data) <= i64::MAX
}

/// There is at most one window.
proof fn lemma_window_unique(data: Seq<u8>, old: int, newest: int)
    requires
        is_window(data, old, newest),
    ensures
        window_start(data) == old,
        window_end(data) == newest,
{
    let w = (old, newest);
    assert(is_window(data, w.0, w.1));
    let c = choose|w: (int, int)| is_window(data, w.0, w.1);
    assert(is_window(data, c.0, c.1));
    assert(slot_used(data, c.1));
    assert(slot_used(data, newest));
    assert(c.1 == newest);
    assert(is_old_enough(data, newest, c.0));
    assert(is_old_enough(data, newest, old));
}

/// The observation in slot `i`, as its timestamp and cumulative tick.
fn read_slot(data: &[u8], i: usize) -> (r: Option<(i64, i64)>)
    requires
        i < 100,
    ensures
        r is Some <==> slot_used(data@, i as int),
        r matches Some(slot) ==> slot.0 == slot_time(data@, i as int) && slot.1 == slot_tick(
            data@,
            i as int,
        ) && 0 < slot.0 <= u32::MAX,
{
    let base: usize = OBS_OBSERVATIONS_OFFSET + i * OBS_ENTRY_LEN;
    if data.len() < base + 12 {
        return None;
    }
    let ts: i64 = read_u32(data, base) as i64;
    if ts == 0 {
        return None;
    }
    Some((ts, read_i64(data, base + 4)))
}

/// The newest of all slots, as its index, timestamp and cumulative tick.
fn find_newest(data: &[u8]) -> (r: Option<(usize, i64, i64)>)
    ensures
        r is None ==> forall|j: int| !#[trigger] slot_used(data@, j),
        r matches Some(s) ==> is_newest(data@, s.0 as int) && s.1 == slot_time(data@, s.0 as int)
            && s.2 == slot_tick(data@, s.0 as int) && 0 < s.1 <= u32::MAX,
{
    let mut best: Option<(usize, i64, i64)> = None;
    let mut i: usize = 0;
    while i < OBS_NUM
        invariant
            i <= 100,
            best is None ==> forall|j: int| j < i ==> !#[trigger] slot_used(data@, j),
            best matches Some(s) ==> {
                &&& s.0 < i
                &&& slot_used(data@, s.0 as int)
                &&& s.1 == slot_time(data@, s.0 as int)
                &&& s.2 == slot_tick(data@, s.0 as int)
                &&& 0 < s.1 <= u32::MAX
                &&& forall|j: int|
                    j < i && #[trigger] slot_used(data@, j) ==> slot_time(data@, j) < s.1 || (
                    slot_time(data@, j) == s.1 && s.0 <= j)
            },
        decreases 100 - i,
    {
        if let Some(slot) = read_slot(data, i) {
            let better: bool = match best {
                Some(s) => slot.0 > s.1,
                None => true,
            };
            if better {
                best = Some((i, slot.0, slot.1));
            }
        }
        i = i + 1;
    }
    best
}

/// The slot that starts the window ending at `newest`, as its timestamp and
/// cumulative tick.
fn find_window_start(data: &[u8], newest: usize, newest_ts: i64) -> (r: Option<(usize, i64, i64)>)
    requires
        newest_ts == slot_time(data@, newest as int),
        0 < newest_ts <= u32::MAX,
    ensures
        r is None ==> forall|j: int| !#[trigger] is_old_enough(data@, newest as int, j),
        r matches Some(s) ==> is_window_start(data@, newest as int, s.0 as int) && s.1 == slot_time(
            data@,
            s.0 as int,
        ) && s.2 == slot_tick(data@, s.0 as int) && 0 < s.1 <= u32::MAX,
{
    let mut best: Option<(usize, i64, i64)> = None;
    let mut i: usize = 0;
    while i < OBS_NUM
        invariant
            i <= 100,
            newest_ts == slot_time(data@, newest as int),
            0 < newest_ts <= u32::MAX,
            best is None ==> forall|j: int| j < i ==> !#[trigger] is_old_enough(data@, newest as int, j),
            best matches Some(s) ==> {
                &&& s.0 < i
                &&& is_old_enough(data@, newest as int, s.0 as int)
                &&& s.1 == slot_time(data@, s.0 as int)
                &&& s.2 == slot_tick(data@, s.0 as int)
                &&& 0 < s.1 <= u32::MAX
                &&& forall|j: int|
                    j < i && #[trigger] is_old_enough(data@, newest as int, j) ==> slot_time(data@, j)
                        < s.1 || (slot_time(data@, j) == s.1 && s.0 <= j)
            },
        decreases 100 - i,
    {
        if let Some(slot) = read_slot(data, i) {
            if newest_ts - slot.0 >= TWAP_MIN_AGE_SECS {
                let better: bool = match best {
                    Some(s) => slot.0 > s.1,
                    None => true,
                };
                if better {
                    best = Some((i, slot.0, slot.1));
                }
            }
        }
        i = i + 1;
    }
    best
}

/// The window's length in seconds and the movement of the cumulative tick over
/// it.
fn find_window(obs_data: &[u8]) -> (r: Option<(i64, i128)>)
    ensures
        r is Some <==> has_window(obs_data@),
        r matches Some(w) ==> w.0 == window_secs(obs_data@) && w.1 == window_ticks(obs_data@)
            && 30 <= w.0 <= u32::MAX,
{
    if obs_data.len() <= OBS_INITIALIZED_OFFSET || obs_data[OBS_INITIALIZED_OFFSET] == 0 {
        return None;
    }
    let newest: (usize, i64, i64) = match find_newest(obs_data) {
        Some(s) => s,
        None => {
            assert forall|old: int, newest: int| !is_window(obs_data@, old, newest) by {
                assert(!slot_used(obs_data@, newest));
            }
            return None;
        },
    };
    let old: (usize, i64, i64) = match find_window_start(obs_data, newest.0, newest.1) {
        Some(s) => s,
        None => {
            assert forall|o: int, n: int| !is_window(obs_data@, o, n) by {
                if is_window(obs_data@, o, n) {
                    assert(slot_used(obs_data@, n));
                    assert(slot_used(obs_data@, newest.0 as int));
                    assert(n == newest.0);
                    assert(!is_old_enough(obs_data@, newest.0 as int, o));
                }
            }
            return None;
        },
    };
    proof {
        assert(is_window(obs_data@, old.0 as int, newest.0 as int));
        lemma_window_unique(obs_data@, old.0 as int, newest.0 as int);
    }
    Some((newest.1 - old.1, newest.2 as i128 - old.2 as i128))
}

/// Tests whether the movement of the cumulative tick over the window fits in 64
/// bits, as the reference price needs it to.
pub fn oracle_window_fits(obs_data: &[u8]) -> (r: bool)
    ensures
        r == window_fits(obs_data@),
{
    match find_window(obs_data) {
        Some(w) => i64::MIN as i128 <= w.1 && w.1 <= i64::MAX as i128,
        None => true,
    }
}

/// The reference square-root price from the oracle: that of the time-weighted
/// average tick over a window that ends at the newest observation and starts at
/// the latest one at least 30 seconds older.
///
/// One manipulated block hardly moves such an average. There is no reference
/// where no two observations are 30 seconds apart.
pub fn reference_sqrt_price(obs_data: &[u8]) -> (r: Option<u128>)
    requires
        window_fits(obs_data@),
    ensures
        r == reference_price(obs_data@),
        r matches Some(s) ==> s == sqrt_price_at_tick(average_tick(obs_data@)),
{
    let (dt, moved): (i64, i128) = match find_window(obs_data) {
        Some(w) => w,
        None => return None,
    };
    let secs: i128 = dt as i128;
    let average: i128 = if moved >= 0 {
        moved / secs
    } else {
        -((-moved) / secs)
    };
    proof {
        if moved >= 0 {
            crate::math::lemma_div_bounds(moved as int, secs as int);
        } else {
            crate::math::lemma_div_bounds(-moved as int, secs as int);
        }
    }
    let tick: i32 = if average < MIN_TICK as i128 {
        MIN_TICK
    } else if average > MAX_TICK as i128 {
        MAX_TICK
    } else {
        average as i32
    };
    Some(get_sqrt_price_at_tick(tick))
}

/// Why a spot price is refused, if it is: there is no reference though one is
/// required, or the price is out of the band around it.
pub open spec fn price_refusal(
    sqrt_price_x64: int,
    obs_data: Seq<u8>,
    require_reference: bool,
    max_deviation_bps: int,
) -> Option<VaultError> {
    match reference_price(obs_data) {
        None => if require_reference {
            Some(VaultError::OracleUnavailable)
        } else {
            None
        },
        Some(reference) => if within_deviation(sqrt_price_x64, reference as int, max_deviation_bps) {
            None
        } else {
            Some(VaultError::PriceManipulationDetected)
        },
    }
}

/// Checks that the spot square-root price has not been moved away from the
/// reference. Without a reference a vault that holds funds must refuse; the
/// first deposit into an empty vault may go on.
pub fn check_price_not_manipulated(
    sqrt_price_x64: u128,
    obs_data: &[u8],
    require_reference: bool,
    max_deviation_bps: u128,
) -> (r: Result<(), VaultError>)
    requires
        window_fits(obs_data@),
    ensures
        r == (match price_refusal(
            sqrt_price_x64 as int,
            obs_data@,
            require_reference,
            max_deviation_bps as int,
        ) {
            Some(e) => Err::<(), VaultError>(e),
            None => Ok(()),
        }),
{
    let reference: u128 = match reference_sqrt_price(obs_data) {
        Some(s) => s,
        None => {
            if require_reference {
                return Err(VaultError::OracleUnavailable);
            }
            return Ok(());
        },
    };
    if !sqrt_within_deviation(sqrt_price_x64, reference, max_deviation_bps) {
        return Err(VaultError::PriceManipulationDetected);
    }
    Ok(())
}

/// The averaging window spans at least 30 seconds, between two observations that
/// the account holds, and ends at the newest.
pub proof fn law_window_spans_the_least_age(data: Seq<u8>)
    requires
        has_window(data),
    ensures
        window_secs(data) >= 30,
        slot_used(data, window_start(data)),
        slot_used(data, window_end(data)),
        forall|j: int|
            slot_used(data, j) ==> slot_time(data, j) <= slot_time(data, window_end(data)),
{
    let (old, newest) = choose|old: int, newest: int| is_window(data, old, newest);
    lemma_window_unique(data, old, newest);
}

/// The reference is always a price that a pool can have.
pub proof fn law_reference_is_a_pool_price(data: Seq<u8>)
    requires
        has_window(data),
    ensures
        MIN_TICK <= average_tick(data) <= MAX_TICK,
        sqrt_price_at_tick(MIN_TICK as int) <= sqrt_price_at_tick(average_tick(data))
            <= sqrt_price_at_tick(MAX_TICK as int),
{
    let tick = average_tick(data);
    if MIN_TICK < tick {
        law_sqrt_price_is_monotonic(MIN_TICK as int, tick);
    }
    if tick < MAX_TICK {
        law_sqrt_price_is_monotonic(tick, MAX_TICK as int);
    }
}

/// Moving the cumulative tick by `moved` over a window of the same length moves
/// the average tick by no more than `moved` divided by the window's length, give
/// or take one. So a price held for a short time weighs little.
pub proof fn law_short_moves_are_diluted(honest: Seq<u8>, moved: Seq<u8>)
    requires
        has_window(honest),
        has_window(moved),
        window_secs(moved) == window_secs(honest),
    ensures
        (distance(average_tick(moved), average_tick(honest)) - 1) * window_secs(honest) <= distance(
            window_ticks(moved),
            window_ticks(honest),
        ),
{
    law_window_spans_the_least_age(honest);
    let d = window_secs(honest);
    let a = window_ticks(honest);
    let b = window_ticks(moved);
    let qa = trunc_div(a, d);
    let qb = trunc_div(b, d);
    if qa >= qb {
        lemma_trunc_div_step(a, b, d);
    } else {
        lemma_trunc_div_step(b, a, d);
    }
    assert((0 - 1) * d <= 0) by (nonlinear_arith)
        requires
            d > 0,
    ;
    assert((distance(qb, qa) - 1) * d <= distance(b, a));
    let ca = clamp_tick(qa);
    let cb = clamp_tick(qb);
    assert(distance(cb, ca) <= distance(qb, qa));
    assert((distance(cb, ca) - 1) * d <= (distance(qb, qa) - 1) * d) by (nonlinear_arith)
        requires
            distance(cb, ca) <= distance(qb, qa),
            d > 0,
    ;
}

/// The account holds an observation with this timestamp and cumulative tick.
pub open spec fn holds(data: Seq<u8>, time: int, ticks: int) -> bool {
    exists|i: int|
        #[trigger] slot_used(data, i) && slot_time(data, i) == time && slot_tick(data, i) == ticks
}

/// No two observations have the same timestamp and different ticks.
pub open spec fn is_consistent(data: Seq<u8>) -> bool {
    forall|i: int, j: int|
        #[trigger] slot_used(data, i) && #[trigger] slot_used(data, j) && slot_time(data, i)
            == slot_time(data, j) ==> slot_tick(data, i) == slot_tick(data, j)
}

/// Among the used slots below `n` one is the first with the latest timestamp.
proof fn lemma_newest_below(data: Seq<u8>, n: int, k: int) -> (best: int)
    requires
        0 <= k < n <= 100,
        slot_used(data, k),
    ensures
        slot_used(data, best),
        0 <= best < n,
        forall|j: int|
            j < n && #[trigger] slot_used(data, j) ==> slot_time(data, j) < slot_time(data, best)
                || (slot_time(data, j) == slot_time(data, best) && best <= j),
    decreases n,
{
    if forall|j: int| j < n - 1 ==> !#[trigger] slot_used(data, j) {
        n - 1
    } else {
        let other = choose|j: int| j < n - 1 && #[trigger] slot_used(data, j);
        let best = lemma_newest_below(data, n - 1, other);
        if slot_used(data, n - 1) && slot_time(data, n - 1) > slot_time(data, best) {
            n - 1
        } else {
            best
        }
    }
}

/// An account with an observation has a newest one.
proof fn lemma_newest_exists(data: Seq<u8>, k: int) -> (newest: int)
    requires
        slot_used(data, k),
    ensures
        is_newest(data, newest),
{
    lemma_newest_below(data, 100, k)
}

/// Among the slots below `n` that are old enough one is the first with the latest
/// timestamp.
proof fn lemma_start_below(data: Seq<u8>, newest: int, n: int, k: int) -> (best: int)
    requires
        0 <= k < n <= 100,
        is_old_enough(data, newest, k),
    ensures
        is_old_enough(data, newest, best),
        0 <= best < n,
        forall|j: int|
            j < n && #[trigger] is_old_enough(data, newest, j) ==> slot_time(data, j) < slot_time(
                data,
                best,
            ) || (slot_time(data, j) == slot_time(data, best) && best <= j),
    decreases n,
{
    if forall|j: int| j < n - 1 ==> !#[trigger] is_old_enough(data, newest, j) {
        n - 1
    } else {
        let other = choose|j: int| j < n - 1 && #[trigger] is_old_enough(data, newest, j);
        let best = lemma_start_below(data, newest, n - 1, other);
        if is_old_enough(data, newest, n - 1) && slot_time(data, n - 1) > slot_time(data, best) {
            n - 1
        } else {
            best
        }
    }
}

/// Where `other` has the newest observation of `data`, and every observation of
/// `data` that is old enough, it has a window that starts no earlier.
proof fn lemma_window_carries_over(data: Seq<u8>, other: Seq<u8>, nd: int, no: int) -> (start: int)
    requires
        has_window(data),
        is_initialized(other),
        is_newest(data, nd),
        is_newest(other, no),
        slot_time(data, nd) == slot_time(other, no),
        forall|t: int, c: int|
            slot_time(data, nd) - t >= TWAP_MIN_AGE_SECS && #[trigger] holds(data, t, c) ==> holds(
                other,
                t,
                c,
            ),
    ensures
        has_window(other),
        is_window(other, start, no),
        window_start(other) == start,
        window_end(other) == no,
        window_end(data) == nd,
        slot_time(other, start) >= slot_time(data, window_start(data)),
{
    let (od, n) = choose|old: int, newest: int| is_window(data, old, newest);
    lemma_window_unique(data, od, n);
    assert(slot_used(data, n) && slot_used(data, nd));
    assert(n == nd);
    let t = slot_time(data, od);
    let c = slot_tick(data, od);
    assert(is_old_enough(data, nd, od));
    assert(slot_used(data, od));
    assert(holds(data, t, c));
    assert(holds(other, t, c));
    let k = choose|i: int|
        #[trigger] slot_used(other, i) && slot_time(other, i) == t && slot_tick(other, i) == c;
    assert(is_old_enough(other, no, k));
    let start = lemma_start_below(other, no, 100, k);
    assert(is_window_start(other, no, start)) by {
        assert forall|j: int| #[trigger] is_old_enough(other, no, j) implies slot_time(other, j)
            < slot_time(other, start) || (slot_time(other, j) == slot_time(other, start) && start
            <= j) by {
            assert(slot_used(other, j));
        }
    }
    assert(is_window(other, start, no));
    lemma_window_unique(other, start, no);
    start
}

/// Observations younger than the window's least age do not count, but for the
/// newest: accounts with the same newest observation, and the same ones that are
/// old enough, give the same reference.
pub proof fn law_young_observations_do_not_count(a: Seq<u8>, b: Seq<u8>, na: int, nb: int)
    requires
        is_initialized(a) == is_initialized(b),
        is_consistent(a),
        is_consistent(b),
        is_newest(a, na),
        is_newest(b, nb),
        slot_time(a, na) == slot_time(b, nb),
        slot_tick(a, na) == slot_tick(b, nb),
        forall|t: int, c: int|
            slot_time(a, na) - t >= 30 ==> #[trigger] holds(a, t, c) == #[trigger] holds(b, t, c),
    ensures
        reference_price(a) == reference_price(b),
{
    assert forall|t: int, c: int|
        slot_time(a, na) - t >= TWAP_MIN_AGE_SECS && #[trigger] holds(a, t, c) implies holds(
        b,
        t,
        c,
    ) by {
        assert(holds(a, t, c) == holds(b, t, c));
    }
    assert forall|t: int, c: int|
        slot_time(b, nb) - t >= TWAP_MIN_AGE_SECS && #[trigger] holds(b, t, c) implies holds(
        a,
        t,
        c,
    ) by {
        assert(holds(a, t, c) == holds(b, t, c));
    }
    if has_window(a) {
        let sb = lemma_window_carries_over(a, b, na, nb);
        let sa = lemma_window_carries_over(b, a, nb, na);
        let t = slot_time(b, sb);
        let c = slot_tick(b, sb);
        assert(slot_used(b, sb)) by {
            assert(is_old_enough(b, nb, sb));
        }
        assert(slot_used(a, sa)) by {
            assert(is_old_enough(a, na, sa));
        }
        assert(holds(b, t, c));
        assert(slot_time(b, nb) - t >= TWAP_MIN_AGE_SECS) by {
            assert(is_old_enough(b, nb, sb));
        }
        assert(holds(a, t, c));
        let k = choose|i: int|
            #[trigger] slot_used(a, i) && slot_time(a, i) == t && slot_tick(a, i) == c;
        assert(slot_time(a, sa) == t);
        assert(slot_tick(a, sa) == slot_tick(a, k));
    } else if has_window(b) {
        let sa = lemma_window_carries_over(b, a, nb, na);
        assert(false);
    }
}

/// The order in which an account keeps its observations makes no difference: the
/// reference depends on which there are. This is of accounts in which no two
/// observations share a timestamp and differ; of such two, the first counts.
pub proof fn law_reference_depends_on_the_observations_alone(a: Seq<u8>, b: Seq<u8>)
    requires
        is_initialized(a) == is_initialized(b),
        is_consistent(a),
        is_consistent(b),
        forall|t: int, c: int| #[trigger] holds(a, t, c) == #[trigger] holds(b, t, c),
    ensures
        reference_price(a) == reference_price(b),
{
    if has_window(a) {
        lemma_same_newest(a, b);
    } else if has_window(b) {
        assert forall|t: int, c: int| #[trigger] holds(b, t, c) == #[trigger] holds(a, t, c) by {
            assert(holds(a, t, c) == holds(b, t, c));
        }
        lemma_same_newest(b, a);
    }
}

/// Accounts with the same observations, of which the first has a window, give the
/// same reference.
proof fn lemma_same_newest(a: Seq<u8>, b: Seq<u8>)
    requires
        has_window(a),
        is_initialized(b),
        is_consistent(a),
        is_consistent(b),
        forall|t: int, c: int| #[trigger] holds(a, t, c) == #[trigger] holds(b, t, c),
    ensures
        reference_price(a) == reference_price(b),
{
    let (old, na) = choose|old: int, newest: int| is_window(a, old, newest);
    assert(slot_used(a, na));
    let ta = slot_time(a, na);
    let ca = slot_tick(a, na);
    assert(holds(a, ta, ca));
    assert(holds(b, ta, ca));
    let k = choose|i: int|
        #[trigger] slot_used(b, i) && slot_time(b, i) == ta && slot_tick(b, i) == ca;
    let nb = lemma_newest_exists(b, k);
    assert(slot_used(b, nb));
    let tb = slot_time(b, nb);
    let cb = slot_tick(b, nb);
    assert(holds(b, tb, cb));
    assert(holds(a, tb, cb));
    let m = choose|i: int|
        #[trigger] slot_used(a, i) && slot_time(a, i) == tb && slot_tick(a, i) == cb;
    assert(ta == tb);
    assert(cb == ca);
    law_young_observations_do_not_count(a, b, na, nb);
}

/// `obs_data` is long enough to name a pool, and names `pool_id`.
pub open spec fn observes(obs_data: Seq<u8>, pool_id: Pubkey) -> bool {
    obs_data.len() >= 51 && obs_data.subrange(19, 51) == pool_id@
}

/// Tells whether an observation account names `pool_id`.
pub fn names_pool(obs_data: &[u8], pool_id: &Pubkey) -> (r: bool)
    ensures
        r == observes(obs_data@, *pool_id),
{
    match observation_pool_id(obs_data) {
        Some(key) => {
            proof {
                if key@ == pool_id@ {
                    lemma_key_ext(key, *pool_id);
                }
            }
            key == *pool_id
        },
        None => false,
    }
}

/// The observations are not the pool program's for the pool `pool_id`, or their
/// window fits.
pub open spec fn feed_fits(
    pool_id: Pubkey,
    observation_owner: Pubkey,
    clmm_program: Pubkey,
    obs_data: Seq<u8>,
) -> bool {
    observation_owner == clmm_program && observes(obs_data, pool_id) ==> window_fits(obs_data)
}

/// Tells whether `check_feed` may be called.
pub fn can_check_feed(
    pool_id: &Pubkey,
    observation_owner: &Pubkey,
    clmm_program: &Pubkey,
    obs_data: &[u8],
) -> (r: bool)
    ensures
        r == feed_fits(*pool_id, *observation_owner, *clmm_program, obs_data@),
{
    *observation_owner != *clmm_program || !names_pool(obs_data, pool_id) || oracle_window_fits(
        obs_data,
    )
}

/// Why a spot price is refused, if it is: the observations are not the pool
/// program's for the pool `pool_id`, or the price is out of the band around them.
pub open spec fn feed_refusal(
    pool_id: Pubkey,
    observation_owner: Pubkey,
    clmm_program: Pubkey,
    sqrt_price_x64: int,
    obs_data: Seq<u8>,
    require_reference: bool,
    max_deviation_bps: int,
) -> Option<VaultError> {
    if observation_owner != clmm_program || !observes(obs_data, pool_id) {
        Some(VaultError::InvalidPriceFeed)
    } else {
        price_refusal(sqrt_price_x64, obs_data, require_reference, max_deviation_bps)
    }
}

/// Checks a spot price against the observations of the pool `pool_id`.
pub fn check_feed(
    pool_id: &Pubkey,
    observation_owner: &Pubkey,
    clmm_program: &Pubkey,
    sqrt_price_x64: u128,
    obs_data: &[u8],
    require_reference: bool,
    max_deviation_bps: u128,
) -> (r: Result<(), VaultError>)
    requires
        feed_fits(*pool_id, *observation_owner, *clmm_program, obs_data@),
    ensures
        r == outcome(
            feed_refusal(
                *pool_id,
                *observation_owner,
                *clmm_program,
                sqrt_price_x64 as int,
                obs_data@,
                require_reference,
                max_deviation_bps as int,
            ),
        ),
{
    if *observation_owner != *clmm_program {
        return Err(VaultError::InvalidPriceFeed);
    }
    if !names_pool(obs_data, pool_id) {
        return Err(VaultError::InvalidPriceFeed);
    }
    check_price_not_manipulated(sqrt_price_x64, obs_data, require_reference, max_deviation_bps)
}

/// The timestamp of the observation at place `j`, byte by byte.
pub open spec fn stamp(data: Seq<u8>, j: int) -> int {
    data[51 + 44 * j] + 0x100 * data[52 + 44 * j] + 0x1_0000 * data[53 + 44 * j] + 0x100_0000
        * data[54 + 44 * j]
}

/// There is an observation at place `j`.
pub open spec fn is_observed(data: Seq<u8>, j: int) -> bool {
    &&& 0 <= j < 100
    &&& 63 + 44 * j <= data.len()
    &&& stamp(data, j) > 0
}

/// A timestamp is the number that its four bytes spell.
proof fn lemma_stamp(data: Seq<u8>, j: int)
    ensures
        slot_used(data, j) <==> is_observed(data, j),
        slot_used(data, j) ==> slot_time(data, j) == stamp(data, j),
{
    if 0 <= j < 100 && 63 + 44 * j <= data.len() {
        let s0 = field(data, slot_start(j), 4);
        let s1 = s0.drop_first();
        let s2 = s1.drop_first();
        let s3 = s2.drop_first();
        let s4 = s3.drop_first();
        assert(s4.len() == 0);
        assert(le_nat(s4) == 0);
        assert(le_nat(s3) == s3[0]);
        assert(le_nat(s2) == s2[0] + 256 * le_nat(s3));
        assert(le_nat(s1) == s1[0] + 256 * le_nat(s2));
        assert(le_nat(s0) == s0[0] + 256 * le_nat(s1));
        assert(slot_time(data, j) == stamp(data, j));
    }
}

/// The reference is the price at the average tick of a window. The window ends at
/// the newest observation and starts at the latest that is 30 seconds older or
/// more; of several at one time the one at the first place counts. The average is
/// the movement of the cumulative tick divided by the seconds, rounded toward
/// zero, and kept within the ticks of a pool.
pub proof fn law_reference_is_at_the_average_tick(
    obs_data: &[u8],
    newest: int,
    start: int,
    ticks_then: i64,
    ticks_now: i64,
    average: int,
    tick: i32,
    price: u128,
    r: Option<u128>,
)
    requires
        obs_data@.len() > 8,
        obs_data@[8] != 0,
        is_observed(obs_data@, newest),
        forall|j: int|
            #[trigger] is_observed(obs_data@, j) ==> stamp(obs_data@, j) < stamp(obs_data@, newest)
                || (stamp(obs_data@, j) == stamp(obs_data@, newest) && newest <= j),
        is_observed(obs_data@, start),
        stamp(obs_data@, newest) - stamp(obs_data@, start) >= 30,
        forall|j: int|
            #[trigger] is_observed(obs_data@, j) && stamp(obs_data@, newest) - stamp(obs_data@, j)
                >= 30 ==> stamp(obs_data@, j) < stamp(obs_data@, start) || (stamp(obs_data@, j)
                == stamp(obs_data@, start) && start <= j),
        call_ensures(read_i64, (obs_data, (55 + 44 * start) as usize), ticks_then),
        call_ensures(read_i64, (obs_data, (55 + 44 * newest) as usize), ticks_now),
        ({
            let secs = stamp(obs_data@, newest) - stamp(obs_data@, start);
            let moved = ticks_now - ticks_then;
            if moved >= 0 {
                average * secs <= moved < average * secs + secs
            } else {
                average * secs - secs < moved <= average * secs
            }
        }),
        tick == (if average < -443_636 {
            -443_636
        } else if average > 443_636 {
            443_636
        } else {
            average
        }),
        call_ensures(get_sqrt_price_at_tick, (tick,), price),
        call_ensures(reference_sqrt_price, (obs_data,), r),
    ensures
        r == Some(price),
{
    let d = obs_data@;
    assert forall|j: int| #[trigger] slot_used(d, j) <==> is_observed(d, j) by {
        lemma_stamp(d, j);
    }
    assert forall|j: int| #[trigger] slot_used(d, j) implies slot_time(d, j) == stamp(d, j) by {
        lemma_stamp(d, j);
    }
    assert(slot_used(d, newest) && slot_used(d, start));
    assert(is_newest(d, newest));
    assert forall|j: int| #[trigger] is_old_enough(d, newest, j) implies slot_time(d, j) < slot_time(
        d,
        start,
    ) || (slot_time(d, j) == slot_time(d, start) && start <= j) by {
        assert(slot_used(d, j));
        assert(is_observed(d, j));
    }
    assert(is_window_start(d, newest, start));
    assert(is_window(d, start, newest));
    lemma_window_unique(d, start, newest);
    let secs = window_secs(d);
    let moved = window_ticks(d);
    assert(secs == stamp(d, newest) - stamp(d, start));
    assert(moved == ticks_now - ticks_then);
    if moved >= 0 {
        crate::math::lemma_div_unique(moved, secs, average);
    } else {
        assert((-average) * secs == -(average * secs)) by (nonlinear_arith);
        crate::math::lemma_div_unique(-moved, secs, -average);
    }
    assert(trunc_div(moved, secs) == average);
    assert(average_tick(d) == tick);
}

/// There is a reference if and only if the account is initialized and two of its
/// observations are 30 seconds apart or more.
pub proof fn law_reference_needs_thirty_seconds(obs_data: &[u8], r: Option<u128>)
    requires
        call_ensures(reference_sqrt_price, (obs_data,), r),
    ensures
        r is Some <==> obs_data@.len() > 8 && obs_data@[8] != 0 && exists|i: int, j: int|
            #[trigger] is_observed(obs_data@, i) && #[trigger] is_observed(obs_data@, j) && stamp(
                obs_data@,
                i,
            ) - stamp(obs_data@, j) >= 30,
{
    let d = obs_data@;
    assert forall|j: int| #[trigger] slot_used(d, j) <==> is_observed(d, j) by {
        lemma_stamp(d, j);
    }
    assert forall|j: int| #[trigger] is_observed(d, j) implies slot_time(d, j) == stamp(d, j) by {
        lemma_stamp(d, j);
    }
    if has_window(d) {
        let (old, newest) = choose|old: int, newest: int| is_window(d, old, newest);
        assert(slot_used(d, newest) && slot_used(d, old));
        assert(is_observed(d, newest) && is_observed(d, old));
        assert(stamp(d, newest) - stamp(d, old) >= 30);
    }
    if exists|i: int, j: int|
        #[trigger] is_observed(d, i) && #[trigger] is_observed(d, j) && stamp(d, i) - stamp(d, j)
            >= 30 {
        let (i, j) = choose|i: int, j: int|
            #[trigger] is_observed(d, i) && #[trigger] is_observed(d, j) && stamp(d, i) - stamp(
                d,
                j,
            ) >= 30;
        assert(slot_used(d, i) && slot_used(d, j));
        let newest = lemma_newest_exists(d, i);
        assert(is_old_enough(d, newest, j));
        let start = lemma_start_below(d, newest, 100, j);
        assert(is_window_start(d, newest, start));
        assert(is_window(d, start, newest));
    }
}

} // verus!
