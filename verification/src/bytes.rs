//! Little-endian numbers in byte strings.

use vstd::arithmetic::power::{lemma_pow0, lemma_pow_increases, pow};
use vstd::prelude::*;

verus! {

/// The number that `bytes` spell, least significant byte first.
pub open spec fn le_nat(bytes: Seq<u8>) -> int
    decreases bytes.len(),
{
    if bytes.len() == 0 {
        0
    } else {
        bytes[0] + 256 * le_nat(bytes.drop_first())
    }
}

/// The `width` bytes that spell `n`, least significant byte first.
pub open spec fn le_bytes(n: int, width: nat) -> Seq<u8>
    decreases width,
{
    if width == 0 {
        Seq::empty()
    } else {
        seq![(n % 256) as u8] + le_bytes(n / 256, (width - 1) as nat)
    }
}

/// The bytes of `data` from `at` on, `width` of them.
pub open spec fn field(data: Seq<u8>, at: int, width: int) -> Seq<u8> {
    data.subrange(at, at + width)
}

/// `n`, read as a two's complement number of which `modulus` is the range.
pub open spec fn signed(n: int, modulus: int) -> int {
    if n < modulus / 2 {
        n
    } else {
        n - modulus
    }
}

/// The two's complement form of `n` within `modulus`.
pub open spec fn unsigned(n: int, modulus: int) -> int {
    if n < 0 {
        n + modulus
    } else {
        n
    }
}

/// Powers of 256 for the widths in use.
pub proof fn lemma_pow256()
    ensures
        pow(256, 0) == 1,
        pow(256, 1) == 0x100,
        pow(256, 4) == 0x1_0000_0000,
        pow(256, 8) == 0x1_0000_0000_0000_0000,
        pow(256, 16) == 0x1_0000_0000_0000_0000_0000_0000_0000_0000int,
{
    lemma_pow0(256);
    reveal_with_fuel(pow, 9);
    assert(pow(256, 8) == 0x1_0000_0000_0000_0000);
    vstd::arithmetic::power::lemma_pow_adds(256, 8, 8);
}

/// A byte string spells a number below 256 to its length.
pub proof fn lemma_le_nat_bound(bytes: Seq<u8>)
    ensures
        0 <= le_nat(bytes) < pow(256, bytes.len()),
    decreases bytes.len(),
{
    if bytes.len() == 0 {
        lemma_pow0(256);
    } else {
        lemma_le_nat_bound(bytes.drop_first());
        reveal(pow);
        assert(pow(256, bytes.len()) == 256 * pow(256, (bytes.len() - 1) as nat));
    }
}

/// Spelling has the width asked for.
pub proof fn lemma_le_bytes_len(n: int, width: nat)
    ensures
        le_bytes(n, width).len() == width,
    decreases width,
{
    if width > 0 {
        lemma_le_bytes_len(n / 256, (width - 1) as nat);
    }
}

/// Reading gives back what was spelled.
pub proof fn lemma_le_round_trip(n: int, width: nat)
    requires
        0 <= n < pow(256, width),
    ensures
        le_nat(le_bytes(n, width)) == n,
    decreases width,
{
    if width == 0 {
        lemma_pow0(256);
    } else {
        reveal(pow);
        assert(pow(256, width) == 256 * pow(256, (width - 1) as nat));
        lemma_le_round_trip(n / 256, (width - 1) as nat);
        lemma_le_bytes_len(n / 256, (width - 1) as nat);
        assert(le_bytes(n, width).drop_first() =~= le_bytes(n / 256, (width - 1) as nat));
    }
}

/// Reads `width` bytes of `data` from `at` on as a little-endian number.
pub fn read_le(data: &[u8], at: usize, width: usize) -> (r: u128)
    requires
        width <= 16,
        at + width <= data@.len(),
    ensures
        r == le_nat(field(data@, at as int, width as int)),
        r < pow(256, width as nat),
{
    let mut r: u128 = 0;
    let mut i: usize = width;
    let ghost end = at + width;
    proof {
        lemma_pow0(256);
        assert(data@.subrange(end, end) =~= Seq::<u8>::empty());
    }
    while i > 0
        invariant
            i <= width <= 16,
            at + width <= data.len(),
            end == at + width,
            r == le_nat(data@.subrange(at + i, end)),
        decreases i,
    {
        i = i - 1;
        proof {
            let tail = data@.subrange(at + i, end);
            assert(tail.drop_first() =~= data@.subrange(at + i + 1, end));
            assert(tail[0] == data@[at + i]);
            lemma_le_nat_bound(tail);
            lemma_pow_increases(256, tail.len(), 16);
            lemma_pow256();
        }
        r = r * 256 + data[at + i] as u128;
    }
    proof {
        lemma_le_nat_bound(data@.subrange(at as int, end));
    }
    r
}

/// Reads a little-endian `u32` at `at`.
pub fn read_u32(data: &[u8], at: usize) -> (r: u32)
    requires
        at + 4 <= data@.len(),
    ensures
        r == le_nat(field(data@, at as int, 4)),
{
    let n: u128 = read_le(data, at, 4);
    proof {
        lemma_pow256();
    }
    n as u32
}

/// Reads a little-endian `u64` at `at`.
pub fn read_u64(data: &[u8], at: usize) -> (r: u64)
    requires
        at + 8 <= data@.len(),
    ensures
        r == le_nat(field(data@, at as int, 8)),
{
    let n: u128 = read_le(data, at, 8);
    proof {
        lemma_pow256();
    }
    n as u64
}

/// Reads a little-endian two's complement `i32` at `at`.
pub fn read_i32(data: &[u8], at: usize) -> (r: i32)
    requires
        at + 4 <= data@.len(),
    ensures
        r == signed(le_nat(field(data@, at as int, 4)), 0x1_0000_0000),
{
    let n: i64 = read_u32(data, at) as i64;
    if n < 0x8000_0000 {
        n as i32
    } else {
        (n - 0x1_0000_0000) as i32
    }
}

/// Reads a little-endian two's complement `i64` at `at`.
pub fn read_i64(data: &[u8], at: usize) -> (r: i64)
    requires
        at + 8 <= data@.len(),
    ensures
        r == signed(le_nat(field(data@, at as int, 8)), 0x1_0000_0000_0000_0000),
{
    let n: i128 = read_u64(data, at) as i128;
    if n < 0x8000_0000_0000_0000 {
        n as i64
    } else {
        (n - 0x1_0000_0000_0000_0000) as i64
    }
}

/// Appends the `width` bytes that spell `n`.
pub fn push_le(out: &mut Vec<u8>, n: u128, width: usize)
    ensures
        final(out)@ == old(out)@ + le_bytes(n as int, width as nat),
{
    let mut rest: u128 = n;
    let mut left: usize = width;
    let ghost before = out@;
    proof {
        assert(before + le_bytes(n as int, width as nat) =~= out@ + le_bytes(
            rest as int,
            left as nat,
        ));
    }
    while left > 0
        invariant
            left <= width,
            before + le_bytes(n as int, width as nat) == out@ + le_bytes(rest as int, left as nat),
        decreases left,
    {
        let ghost earlier = out@;
        let digit: u8 = (rest % 256) as u8;
        out.push(digit);
        proof {
            assert(earlier + le_bytes(rest as int, left as nat) =~= out@ + le_bytes(
                rest as int / 256,
                (left - 1) as nat,
            ));
        }
        rest = rest / 256;
        left = left - 1;
    }
    proof {
        assert(out@ + le_bytes(rest as int, 0) =~= out@);
    }
}

} // verus!
