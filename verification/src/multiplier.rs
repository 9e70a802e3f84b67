//! Fixed-point multipliers for prices and demand.
//!
//! A multiplier counts billionths: `1_000_000_000` stands for 1.0. A product
//! of two multipliers is truncated to that precision and saturates at the
//! largest representable value, so every operation is total.

use vstd::prelude::*;

verus! {

/// The number of billionths in 1.0.
pub const ONE: u64 = 1_000_000_000;

/// The number of billionths in one hundredth.
pub const HUNDREDTH: u64 = 10_000_000;

/// A non-negative factor, held as a count of billionths.
#[derive(Clone, Copy, Debug, PartialEq, Eq, Structural)]
pub struct Multiplier {
    pub billionths: u64,
}

/// `x`, or the largest `u64` where `x` lies above it.
pub open spec fn saturate_u64(x: int) -> u64 {
    if x > u64::MAX {
        u64::MAX
    } else {
        x as u64
    }
}

/// `x`, or the largest `u32` where `x` lies above it.
pub open spec fn saturate_u32(x: int) -> u32 {
    if x > u32::MAX {
        u32::MAX
    } else {
        x as u32
    }
}

impl Multiplier {
    /// The multiplier that stands for `h` hundredths.
    pub open spec fn spec_from_hundredths(h: int) -> Multiplier {
        Multiplier { billionths: (h * 10_000_000) as u64 }
    }

    /// The product of two multipliers, truncated to billionths and saturated.
    pub open spec fn spec_times(self, other: Multiplier) -> Multiplier {
        Multiplier {
            billionths: saturate_u64(self.billionths as int * other.billionths as int / 1_000_000_000),
        }
    }

    /// `amount` scaled by the multiplier, rounded half up and saturated.
    pub open spec fn spec_apply_rounded(self, amount: int) -> u32 {
        saturate_u32((amount * self.billionths as int + 500_000_000) / 1_000_000_000)
    }

    /// The multiplier 1.0.
    pub fn one() -> (m: Multiplier)
        ensures
            m == Multiplier::spec_from_hundredths(100),
            m.billionths == ONE,
    {
        Multiplier { billionths: ONE }
    }

    /// The multiplier that stands for `h` hundredths: `from_hundredths(125)` is 1.25.
    pub fn from_hundredths(h: u32) -> (m: Multiplier)
        ensures
            m == Multiplier::spec_from_hundredths(h as int),
            m.billionths == h as int * 10_000_000,
    {
        let wide: u64 = h as u64;
        assert(wide * 10_000_000 <= 0xffff_ffff * 10_000_000) by (nonlinear_arith)
            requires
                wide <= 0xffff_ffff,
        ;
        Multiplier { billionths: wide * HUNDREDTH }
    }

    /// The count of billionths.
    pub fn billionths(&self) -> (b: u64)
        ensures
            b == self.billionths,
    {
        self.billionths
    }

    /// Multiplies two multipliers.
    pub fn times(self, other: Multiplier) -> (m: Multiplier)
        ensures
            m == self.spec_times(other),
    {
        let a: u128 = self.billionths as u128;
        let b: u128 = other.billionths as u128;
        assert(a * b <= 0xffff_ffff_ffff_ffff * 0xffff_ffff_ffff_ffff) by (nonlinear_arith)
            requires
                a <= 0xffff_ffff_ffff_ffff,
                b <= 0xffff_ffff_ffff_ffff,
        ;
        let exact: u128 = a * b / 1_000_000_000u128;
        if exact > 0xffff_ffff_ffff_ffffu128 {
            Multiplier { billionths: u64::MAX }
        } else {
            Multiplier { billionths: exact as u64 }
        }
    }

    /// Scales a whole amount by the multiplier and rounds to the nearest
    /// whole number, halves upwards.
    pub fn apply_rounded(self, amount: u32) -> (r: u32)
        ensures
            r == self.spec_apply_rounded(amount as int),
    {
        let a: u128 = amount as u128;
        let b: u128 = self.billionths as u128;
        assert(a * b <= 0xffff_ffff * 0xffff_ffff_ffff_ffff) by (nonlinear_arith)
            requires
                a <= 0xffff_ffff,
                b <= 0xffff_ffff_ffff_ffff,
        ;
        let rounded: u128 = (a * b + 500_000_000u128) / 1_000_000_000u128;
        if rounded > 0xffff_ffffu128 {
            u32::MAX
        } else {
            rounded as u32
        }
    }

    /// Whether the multiplier lies strictly above `h` hundredths.
    pub fn exceeds_hundredths(self, h: u32) -> (r: bool)
        ensures
            r == (self.billionths as int > h as int * 10_000_000),
    {
        self.billionths > Multiplier::from_hundredths(h).billionths
    }

    /// Whether the multiplier lies strictly below `h` hundredths.
    pub fn below_hundredths(self, h: u32) -> (r: bool)
        ensures
            r == ((self.billionths as int) < h as int * 10_000_000),
    {
        self.billionths < Multiplier::from_hundredths(h).billionths
    }
}

/// Multiplying by 1.0 changes nothing.
pub proof fn lemma_times_one(m: Multiplier)
    ensures
        m.spec_times(Multiplier::spec_from_hundredths(100)) == m,
        Multiplier::spec_from_hundredths(100).spec_times(m) == m,
{
    assert(m.billionths as int * 1_000_000_000 / 1_000_000_000 == m.billionths as int) by (nonlinear_arith);
    assert(1_000_000_000 * m.billionths as int / 1_000_000_000 == m.billionths as int) by (nonlinear_arith);
}

} // verus!
