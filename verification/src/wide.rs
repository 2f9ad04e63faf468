//! 256-bit products and quotients, so that liquidity formulas lose nothing
//! before their final rounding.

use crate::math::lemma_div_unique;
use vstd::arithmetic::power2::{lemma2_to64, lemma_pow2_adds, lemma_pow2_pos, lemma_pow2_unfold, pow2};
use vstd::prelude::*;

verus! {

/// 2^128.
pub open spec fn q128() -> int {
    0x1_0000_0000_0000_0000_0000_0000_0000_0000int
}

/// An unsigned 256-bit number in two halves.
#[derive(Clone, Copy, Debug)]
pub struct U256 {
    pub hi: u128,
    pub lo: u128,
}

impl View for U256 {
    type V = int;

    open spec fn view(&self) -> int {
        self.hi * q128() + self.lo
    }
}

/// 2^127 and 2^128 as powers of two.
proof fn lemma_pow2_128()
    ensures
        pow2(127) == 0x8000_0000_0000_0000_0000_0000_0000_0000,
        pow2(128) == q128(),
{
    lemma2_to64();
    lemma_pow2_adds(64, 64);
    lemma_pow2_unfold(128);
}

/// Schoolbook multiplication of two 128-bit numbers in 64-bit digits.
proof fn lemma_schoolbook(a1: int, a0: int, b1: int, b0: int, q: int)
    ensures
        (a1 * q + a0) * (b1 * q + b0) == (a1 * b1) * (q * q) + (a1 * b0 + a0 * b1) * q + a0 * b0,
{
    let y = b1 * q + b0;
    assert((a1 * q + a0) * y == (a1 * q) * y + a0 * y) by (nonlinear_arith);
    assert((a1 * q) * (b1 * q + b0) == (a1 * q) * (b1 * q) + (a1 * q) * b0) by (nonlinear_arith);
    assert(a0 * (b1 * q + b0) == a0 * (b1 * q) + a0 * b0) by (nonlinear_arith);
    assert((a1 * q) * (b1 * q) == (a1 * b1) * (q * q)) by (nonlinear_arith);
    assert((a1 * q) * b0 == (a1 * b0) * q) by (nonlinear_arith);
    assert(a0 * (b1 * q) == (a0 * b1) * q) by (nonlinear_arith);
    assert((a1 * b0) * q + (a0 * b1) * q == (a1 * b0 + a0 * b1) * q) by (nonlinear_arith);
}

impl U256 {
    /// The exact product of two 128-bit numbers.
    pub fn mul_wide(a: u128, b: u128) -> (r: U256)
        ensures
            r@ == a * b,
    {
        let q: u128 = 0x1_0000_0000_0000_0000;
        let a1: u128 = a / q;
        let a0: u128 = a % q;
        let b1: u128 = b / q;
        let b0: u128 = b % q;
        let ghost digit: int = 0xffff_ffff_ffff_ffff;
        assert(0 <= a0 * b0 <= digit * digit && 0 <= a1 * b0 <= digit * digit && 0 <= a0 * b1
            <= digit * digit && 0 <= a1 * b1 <= digit * digit) by (nonlinear_arith)
            requires
                0 <= a0 <= digit,
                0 <= a1 <= digit,
                0 <= b0 <= digit,
                0 <= b1 <= digit,
        ;
        let p00: u128 = a0 * b0;
        let p01: u128 = a0 * b1;
        let p10: u128 = a1 * b0;
        let p11: u128 = a1 * b1;
        let mid: u128 = p00 / q + p01 % q + p10 % q;
        let lo: u128 = (mid % q) * q + p00 % q;
        proof {
            lemma_schoolbook(a1 as int, a0 as int, b1 as int, b0 as int, q as int);
            assert(a == a1 * q + a0);
            assert(b == b1 * q + b0);
            assert(a * b == p11 * q128() + (p10 + p01) * q + p00);
            assert(a * b < q128() * q128()) by (nonlinear_arith)
                requires
                    0 <= a < q128(),
                    0 <= b < q128(),
            ;
            let carry = p01 / q + p10 / q + mid / q;
            assert(p11 * q128() + (p10 + p01) * q + p00 == (p11 + carry) * q128() + lo);
            assert(p11 + carry < q128()) by (nonlinear_arith)
                requires
                    (p11 + carry) * q128() + lo < q128() * q128(),
                    lo >= 0,
            ;
        }
        let hi: u128 = p11 + p01 / q + p10 / q + mid / q;
        U256 { hi, lo }
    }

    /// Multiplication by 2^64.
    pub fn shl64(self) -> (r: U256)
        requires
            self@ * 0x1_0000_0000_0000_0000 < q128() * q128(),
        ensures
            r@ == self@ * 0x1_0000_0000_0000_0000,
    {
        let q: u128 = 0x1_0000_0000_0000_0000;
        assert(self.hi < q);
        let hi: u128 = self.hi * q + self.lo / q;
        let lo: u128 = (self.lo % q) * q;
        U256 { hi, lo }
    }

    /// Division by 2^64, rounded down.
    pub fn shr64(self) -> (r: U256)
        ensures
            r@ == self@ / 0x1_0000_0000_0000_0000,
    {
        let q: u128 = 0x1_0000_0000_0000_0000;
        let hi: u128 = self.hi / q;
        let lo: u128 = (self.hi % q) * q + self.lo / q;
        U256 { hi, lo }
    }

    /// Division by a 128-bit number, rounded down.
    pub fn div(self, d: u128) -> (r: U256)
        requires
            d > 0,
        ensures
            r@ == self@ / (d as int),
    {
        let q_hi: u128 = self.hi / d;
        let first: u128 = self.hi % d;
        let mut rem: u128 = first;
        let mut quo: u128 = 0;
        let mut rest: u128 = self.lo;
        let mut half: u128 = 0x8000_0000_0000_0000_0000_0000_0000_0000;
        let mut i: u32 = 0;
        proof {
            lemma_pow2_128();
            lemma2_to64();
        }
        while i < 128
            invariant
                i <= 128,
                d > 0,
                rem < d,
                quo < pow2(i as nat),
                rest < pow2((128 - i) as nat),
                i < 128 ==> half == pow2((127 - i) as nat),
                first * q128() + self.lo == (quo * d + rem) * pow2((128 - i) as nat) + rest,
            decreases 128 - i,
        {
            proof {
                lemma_pow2_128();
                lemma_pow2_unfold((128 - i) as nat);
                lemma_pow2_unfold((i + 1) as nat);
                lemma_pow2_pos((127 - i) as nat);
                if i < 127 {
                    lemma_pow2_unfold((127 - i) as nat);
                }
                vstd::arithmetic::power2::lemma_pow2_strictly_increases(i as nat, 128);
                if i < 127 {
                    vstd::arithmetic::power2::lemma_pow2_strictly_increases((i + 1) as nat, 128);
                }
            }
            let ghost w: int = pow2((127 - i) as nat) as int;
            let ghost rem_before = rem;
            let ghost quo_before = quo;
            let ghost rest_before = rest;
            let bit: u128 = if rest >= half {
                1
            } else {
                0
            };
            if bit == 1 {
                rest = rest - half;
            }
            let take: u128;
            if rem >= d - rem {
                rem = rem - (d - rem) + bit;
                take = 1;
            } else {
                let doubled: u128 = rem * 2 + bit;
                if doubled == d {
                    rem = 0;
                    take = 1;
                } else {
                    rem = doubled;
                    take = 0;
                }
            }
            quo = quo * 2 + take;
            proof {
                assert(rem == 2 * rem_before + bit - take * d) by {
                    assert(take == 1 ==> take * d == d) by (nonlinear_arith);
                    assert(take == 0 ==> take * d == 0) by (nonlinear_arith);
                }
                assert(quo * d + rem == 2 * (quo_before * d + rem_before) + bit) by (nonlinear_arith)
                    requires
                        rem == 2 * rem_before + bit - take * d,
                        quo == quo_before * 2 + take,
                ;
                assert(rest_before == bit * w + rest) by {
                    assert(bit == 1 ==> bit * w == w) by (nonlinear_arith);
                    assert(bit == 0 ==> bit * w == 0) by (nonlinear_arith);
                }
                let before = quo_before * d + rem_before;
                let after = quo * d + rem;
                assert(before * (2 * w) + rest_before == after * w + rest) by (nonlinear_arith)
                    requires
                        after == 2 * before + bit,
                        rest_before == bit * w + rest,
                ;
            }
            half = half / 2;
            i = i + 1;
        }
        proof {
            lemma_pow2_128();
            lemma2_to64();
            assert(pow2(0) == 1);
            let high = quo * d + rem;
            assert(high * 1 == high);
            assert(first * q128() + self.lo == quo * d + rem);
            assert(self.hi == q_hi * d + first) by {
                vstd::arithmetic::div_mod::lemma_fundamental_div_mod(self.hi as int, d as int);
                assert(d * q_hi == q_hi * d) by (nonlinear_arith);
            }
            assert(self@ == (q_hi * q128() + quo) * d + rem) by (nonlinear_arith)
                requires
                    self@ == self.hi * q128() + self.lo,
                    self.hi == q_hi * d + first,
                    first * q128() + self.lo == quo * d + rem,
            ;
            lemma_div_unique(self@, d as int, q_hi * q128() + quo);
        }
        U256 { hi: q_hi, lo: quo }
    }

    /// The number, where it fits in 64 bits.
    pub fn to_u64(self) -> (r: Option<u64>)
        ensures
            r == crate::math::fit_u64(self@),
    {
        if self.hi > 0 || self.lo > u64::MAX as u128 {
            None
        } else {
            Some(self.lo as u64)
        }
    }

    /// The number, where it fits in 128 bits.
    pub fn to_u128(self) -> (r: Option<u128>)
        ensures
            r == (if self@ <= u128::MAX {
                Some(self@ as u128)
            } else {
                None
            }),
    {
        if self.hi > 0 {
            None
        } else {
            Some(self.lo)
        }
    }

    /// The number, or `u64::MAX` if it is larger.
    pub fn clamp_to_u64(self) -> (r: u64)
        ensures
            r == crate::math::clamp_u64(self@),
    {
        if self.hi > 0 || self.lo > u64::MAX as u128 {
            u64::MAX
        } else {
            self.lo as u64
        }
    }
}

} // verus!
