//! Binary floating-point numbers as the records meet them: held by their
//! bit patterns, carried through, or cut to a whole number.

use vstd::arithmetic::div_mod::lemma_basic_div;
use vstd::arithmetic::power2::{
    lemma2_to64, lemma2_to64_rest, lemma_pow2_strictly_increases, lemma_pow2_unfold, pow2,
};
use vstd::prelude::*;

verus! {

/// A binary64 number, held by its bit pattern. The records carry such
/// numbers through as they were measured.
#[derive(Clone, Copy, Debug, PartialEq, Eq)]
pub struct Binary64 {
    pub bits: u64,
}

/// A binary32 number, held by its bit pattern: a sign bit, eight bits of
/// exponent and 23 bits of fraction.
#[derive(Clone, Copy, Debug, PartialEq, Eq)]
pub struct Binary32 {
    pub bits: u32,
}

/// 2^23: the hidden bit of a binary32 significand.
pub const HIDDEN_BIT: u32 = 0x80_0000;

/// The exponent field at which the significand counts whole units.
pub const UNIT_EXPONENT: u32 = 150;

impl Binary32 {
    /// Whether the sign bit is set.
    pub open spec fn negative(self) -> bool {
        self.bits >= 0x8000_0000
    }

    /// The exponent field.
    pub open spec fn exponent(self) -> nat {
        ((self.bits / HIDDEN_BIT) % 256) as nat
    }

    /// The fraction field.
    pub open spec fn fraction(self) -> nat {
        (self.bits % HIDDEN_BIT) as nat
    }

    /// Whether this is no number at all.
    pub open spec fn is_nan(self) -> bool {
        self.exponent() == 255 && self.fraction() != 0
    }

    /// Whether this is an infinity.
    pub open spec fn is_infinite(self) -> bool {
        self.exponent() == 255 && self.fraction() == 0
    }

    /// The whole part of the magnitude of a finite number. A normal number
    /// is its significand times a power of two; a subnormal one is below 1.
    pub open spec fn whole_magnitude(self) -> nat {
        let e = self.exponent();
        let significand = HIDDEN_BIT as nat + self.fraction();
        if e == 0 {
            0
        } else if e < UNIT_EXPONENT {
            significand / pow2((UNIT_EXPONENT - e) as nat)
        } else {
            significand * pow2((e - UNIT_EXPONENT) as nat)
        }
    }

    /// The number cut towards zero to a whole number and kept within the
    /// signed 64-bit range; what is no number counts as zero.
    pub open spec fn to_whole(self) -> int {
        if self.is_nan() {
            0
        } else if self.is_infinite() {
            if self.negative() {
                i64::MIN as int
            } else {
                i64::MAX as int
            }
        } else if self.negative() {
            if self.whole_magnitude() > i64::MAX {
                i64::MIN as int
            } else {
                -(self.whole_magnitude() as int)
            }
        } else {
            if self.whole_magnitude() > i64::MAX {
                i64::MAX as int
            } else {
                self.whole_magnitude() as int
            }
        }
    }

    /// Cuts the number to a whole one, as `to_whole` says.
    pub fn whole_part(self) -> (r: i64)
        ensures
            r == self.to_whole(),
    {
        let e: u32 = (self.bits / HIDDEN_BIT) % 256;
        let fraction: u32 = self.bits % HIDDEN_BIT;
        let negative = self.bits >= 0x8000_0000;
        if e == 255 {
            if fraction != 0 {
                0
            } else if negative {
                i64::MIN
            } else {
                i64::MAX
            }
        } else if e == 0 {
            0
        } else {
            let significand: u64 = HIDDEN_BIT as u64 + fraction as u64;
            if e < UNIT_EXPONENT {
                let shift: u32 = UNIT_EXPONENT - e;
                let magnitude: u64 = if shift >= 24 {
                    proof {
                        lemma2_to64();
                        if shift > 24 {
                            lemma_pow2_strictly_increases(24, shift as nat);
                        }
                        lemma_basic_div(significand as int, pow2(shift as nat) as int);
                    }
                    0
                } else {
                    significand / power_of_two(shift)
                };
                if negative {
                    -(magnitude as i64)
                } else {
                    magnitude as i64
                }
            } else {
                let shift: u32 = e - UNIT_EXPONENT;
                if shift >= 40 {
                    proof {
                        lemma_pow2_from_40(shift as nat);
                        assert(significand * pow2(shift as nat) > i64::MAX) by (nonlinear_arith)
                            requires
                                significand >= 0x80_0000,
                                pow2(shift as nat) >= 0x100_0000_0000,
                        ;
                    }
                    if negative {
                        i64::MIN
                    } else {
                        i64::MAX
                    }
                } else {
                    let scale: u64 = power_of_two(shift);
                    proof {
                        lemma2_to64();
                        lemma2_to64_rest();
                        if shift < 39 {
                            lemma_pow2_strictly_increases(shift as nat, 39);
                        }
                        assert(significand * scale < 0x8000_0000_0000_0000) by (nonlinear_arith)
                            requires
                                significand < 0x100_0000,
                                scale <= 0x80_0000_0000,
                        ;
                    }
                    let magnitude: u64 = significand * scale;
                    if negative {
                        -(magnitude as i64)
                    } else {
                        magnitude as i64
                    }
                }
            }
        }
    }
}

/// From 2^40 on, a power of two is at least 2^40.
proof fn lemma_pow2_from_40(e: nat)
    requires
        e >= 40,
    ensures
        pow2(e) >= 0x100_0000_0000,
{
    lemma2_to64_rest();
    if e > 40 {
        lemma_pow2_strictly_increases(40, e);
    }
}

/// Computes a power of two.
fn power_of_two(e: u32) -> (r: u64)
    requires
        e < 64,
    ensures
        r == pow2(e as nat),
        r >= 1,
{
    let mut r: u64 = 1;
    let mut i: u32 = 0;
    proof {
        lemma2_to64();
    }
    while i < e
        invariant
            i <= e,
            e < 64,
            r == pow2(i as nat),
            r >= 1,
        decreases e - i,
    {
        proof {
            lemma_pow2_unfold((i + 1) as nat);
            lemma2_to64_rest();
            if i + 1 < 63 {
                lemma_pow2_strictly_increases((i + 1) as nat, 63);
            }
        }
        r = r * 2;
        i += 1;
    }
    r
}

} // verus!
