//! Single-precision numbers held by their IEEE-754 encoding.
//!
//! The encoding has a sign bit, eight exponent bits and twenty-three fraction
//! bits. Encodings whose magnitude lies above that of infinity are NaN. Every
//! other encoding is a number, and every finite number is a whole multiple of
//! the smallest positive one, 2^-149: that multiple, [`Scalar::scaled`], is
//! what the contracts of this library compare. The code compares encodings;
//! [`lemma_order_by_encoding`] shows that this is the same comparison.

use vstd::prelude::*;
use vstd::arithmetic::power2::{
    lemma2_to64, lemma_pow2_adds, lemma_pow2_pos, lemma_pow2_strictly_increases,
    lemma_pow2_unfold, pow2,
};

verus! {

/// The sign bit of an encoding.
pub const SIGN_BIT: u32 = 0x8000_0000;

/// The encoding of positive infinity: the largest magnitude that is a number.
pub const INFINITY_BITS: u32 = 0x7F80_0000;

/// The encoding of one.
pub const ONE_BITS: u32 = 0x3F80_0000;

/// The number of encodings that share one exponent: two to the power of the
/// twenty-three fraction bits.
pub const FRACTION_RANGE: u32 = 0x80_0000;

/// The absolute value, in units of 2^-149, of the number whose encoding has
/// the magnitude `magnitude`. With an exponent field of zero the fraction
/// counts units; with any other, the fraction and the implicit leading bit
/// count units doubled once for each step of the exponent above one.
pub open spec fn scale(magnitude: int) -> int {
    let exponent = magnitude / (FRACTION_RANGE as int);
    let fraction = magnitude % (FRACTION_RANGE as int);
    if exponent <= 0 {
        fraction
    } else {
        (FRACTION_RANGE + fraction) * pow2((exponent - 1) as nat)
    }
}

/// A single-precision number, held by the 32 bits of its IEEE-754 encoding.
///
/// The derived `==` compares encodings: it tells `-0.0` from `+0.0` and finds a
/// NaN equal to itself. Numeric comparison is [`Scalar::is_less_than`] and
/// [`Scalar::is_zero`].
#[derive(Clone, Copy, Debug, PartialEq, Eq, Structural, Hash)]
pub struct Scalar {
    pub bits: u32,
}

impl Scalar {
    /// The encoding without its sign bit.
    pub open spec fn magnitude(self) -> int {
        if self.bits >= SIGN_BIT {
            self.bits - SIGN_BIT
        } else {
            self.bits as int
        }
    }

    /// The magnitude of the encoding, with the sign of the number.
    pub open spec fn rank(self) -> int {
        if self.bits >= SIGN_BIT {
            -self.magnitude()
        } else {
            self.magnitude()
        }
    }

    /// The encoding is not a number.
    pub open spec fn spec_is_nan(self) -> bool {
        self.magnitude() > INFINITY_BITS
    }

    /// The number, in units of 2^-149. An infinity stands at 2^277 on its side
    /// of zero, beyond every finite number. Of a NaN this says nothing.
    pub open spec fn scaled(self) -> int {
        if self.bits >= SIGN_BIT {
            -scale(self.magnitude())
        } else {
            scale(self.magnitude())
        }
    }

    /// Numeric `self < other`: false as soon as either side is NaN.
    pub open spec fn spec_is_less_than(self, other: Scalar) -> bool {
        !self.is_nan() && !other.is_nan() && self.scaled() < other.scaled()
    }

    /// Positive zero.
    pub open spec fn spec_zero() -> Scalar {
        Scalar { bits: 0 }
    }

    /// One.
    pub open spec fn spec_one() -> Scalar {
        Scalar { bits: ONE_BITS }
    }

    /// Numeric `self > 0`.
    pub open spec fn spec_is_positive(self) -> bool {
        Scalar::zero().is_less_than(self)
    }

    /// Numeric `self < 0`.
    pub open spec fn spec_is_negative(self) -> bool {
        self.is_less_than(Scalar::zero())
    }

    /// Numeric `self == 0`: true of both zeros, false of NaN.
    pub open spec fn spec_is_zero(self) -> bool {
        !self.is_nan() && self.scaled() == 0
    }

    /// Numeric `0 <= self <= 1`.
    pub open spec fn in_unit_interval(self) -> bool {
        !self.is_nan() && !self.is_less_than(Scalar::zero()) && !Scalar::one().is_less_than(self)
    }

    /// The number clamped to `[0, 1]`: `+0.0` if it is less than zero, one if
    /// it is greater than one, and the encoding itself otherwise. So a NaN
    /// stays the NaN it is, and `-0.0` stays `-0.0`.
    pub open spec fn spec_clamp_unit(self) -> Scalar {
        if self.is_less_than(Scalar::zero()) {
            Scalar::zero()
        } else if Scalar::one().is_less_than(self) {
            Scalar::one()
        } else {
            self
        }
    }

    /// The number with the given encoding.
    pub fn from_bits(bits: u32) -> (s: Scalar)
        ensures
            s.bits == bits,
    {
        Scalar { bits }
    }

    /// The encoding of the number.
    pub fn to_bits(self) -> (bits: u32)
        ensures
            bits == self.bits,
    {
        self.bits
    }

    /// Positive zero.
    #[verifier::when_used_as_spec(spec_zero)]
    pub fn zero() -> (s: Scalar)
        ensures
            s == Scalar::spec_zero(),
    {
        Scalar { bits: 0 }
    }

    /// One.
    #[verifier::when_used_as_spec(spec_one)]
    pub fn one() -> (s: Scalar)
        ensures
            s == Scalar::spec_one(),
    {
        Scalar { bits: ONE_BITS }
    }

    fn magnitude_bits(self) -> (m: u32)
        ensures
            m == self.magnitude(),
    {
        if self.bits >= SIGN_BIT {
            self.bits - SIGN_BIT
        } else {
            self.bits
        }
    }

    /// Whether the encoding is not a number.
    #[verifier::when_used_as_spec(spec_is_nan)]
    pub fn is_nan(self) -> (b: bool)
        ensures
            b == self.spec_is_nan(),
    {
        self.magnitude_bits() > INFINITY_BITS
    }

    /// Whether the number is less than `other`; false if either is NaN.
    #[verifier::when_used_as_spec(spec_is_less_than)]
    pub fn is_less_than(self, other: Scalar) -> (b: bool)
        ensures
            b == self.spec_is_less_than(other),
    {
        if self.is_nan() || other.is_nan() {
            return false;
        }
        proof {
            lemma_order_by_encoding(self, other);
        }
        let mine: u32 = self.magnitude_bits();
        let theirs: u32 = other.magnitude_bits();
        if self.bits >= SIGN_BIT {
            if other.bits >= SIGN_BIT {
                theirs < mine
            } else {
                mine > 0 || theirs > 0
            }
        } else {
            other.bits < SIGN_BIT && mine < theirs
        }
    }

    /// Whether the number is greater than zero.
    #[verifier::when_used_as_spec(spec_is_positive)]
    pub fn is_positive(self) -> (b: bool)
        ensures
            b == self.spec_is_positive(),
    {
        proof {
            lemma_order_by_encoding(Scalar::zero(), self);
        }
        0 < self.bits && self.bits <= INFINITY_BITS
    }

    /// Whether the number is less than zero.
    #[verifier::when_used_as_spec(spec_is_negative)]
    pub fn is_negative(self) -> (b: bool)
        ensures
            b == self.spec_is_negative(),
    {
        proof {
            lemma_order_by_encoding(self, Scalar::zero());
        }
        SIGN_BIT < self.bits && self.bits - SIGN_BIT <= INFINITY_BITS
    }

    /// Whether the number equals zero, of either sign.
    #[verifier::when_used_as_spec(spec_is_zero)]
    pub fn is_zero(self) -> (b: bool)
        ensures
            b == self.spec_is_zero(),
    {
        proof {
            lemma_order_by_encoding(self, Scalar::zero());
        }
        self.bits == 0 || self.bits == SIGN_BIT
    }

    /// The number clamped to `[0, 1]`.
    #[verifier::when_used_as_spec(spec_clamp_unit)]
    pub fn clamp_unit(self) -> (c: Scalar)
        ensures
            c == self.spec_clamp_unit(),
    {
        if self.is_less_than(Scalar::zero()) {
            Scalar::zero()
        } else if Scalar::one().is_less_than(self) {
            Scalar::one()
        } else {
            self
        }
    }
}

impl Default for Scalar {
    /// Positive zero.
    fn default() -> (s: Scalar)
        ensures
            s == Scalar::zero(),
    {
        Scalar { bits: 0 }
    }
}

/// A greater magnitude of the encoding is a greater absolute value.
proof fn lemma_scale_increases(low: int, high: int)
    requires
        0 <= low < high,
    ensures
        0 <= scale(low) < scale(high),
{
    let range = FRACTION_RANGE as int;
    let low_exponent = low / range;
    let low_fraction = low % range;
    let high_exponent = high / range;
    let high_fraction = high % range;
    assert(low_exponent <= high_exponent);
    assert(0 <= low_fraction < range && 0 <= high_fraction < range);
    assert(low == range * low_exponent + low_fraction);
    assert(high == range * high_exponent + high_fraction);
    if high_exponent == 0 {
    } else {
        let high_step = pow2((high_exponent - 1) as nat) as int;
        lemma_pow2_pos((high_exponent - 1) as nat);
        assert(range * high_step <= (range + high_fraction) * high_step) by (nonlinear_arith)
            requires
                0 <= high_fraction,
                0 < high_step,
                0 < range,
        ;
        assert(range <= range * high_step) by (nonlinear_arith)
            requires
                0 < high_step,
                0 < range,
        ;
        if low_exponent == 0 {
        } else if low_exponent == high_exponent {
            assert(low_fraction < high_fraction);
            assert((range + low_fraction) * high_step < (range + high_fraction) * high_step)
                by (nonlinear_arith)
                requires
                    low_fraction < high_fraction,
                    0 < high_step,
            ;
            assert(0 <= (range + low_fraction) * high_step) by (nonlinear_arith)
                requires
                    0 <= low_fraction,
                    0 < high_step,
                    0 < range,
            ;
        } else {
            let low_step = pow2((low_exponent - 1) as nat) as int;
            lemma_pow2_pos((low_exponent - 1) as nat);
            lemma_pow2_unfold(low_exponent as nat);
            if low_exponent < high_exponent - 1 {
                lemma_pow2_strictly_increases(low_exponent as nat, (high_exponent - 1) as nat);
            }
            assert(2 * low_step <= high_step);
            assert((range + low_fraction) * low_step < range * (2 * low_step)) by (nonlinear_arith)
                requires
                    0 <= low_fraction < range,
                    0 < low_step,
            ;
            assert(range * (2 * low_step) <= range * high_step) by (nonlinear_arith)
                requires
                    2 * low_step <= high_step,
                    0 < range,
            ;
            assert(0 <= (range + low_fraction) * low_step) by (nonlinear_arith)
                requires
                    0 <= low_fraction,
                    0 < low_step,
                    0 < range,
            ;
        }
    }
}

/// Comparing two numbers is comparing the magnitudes of their encodings, each
/// taken with its sign.
pub proof fn lemma_order_by_encoding(a: Scalar, b: Scalar)
    ensures
        a.scaled() < b.scaled() <==> a.rank() < b.rank(),
        a.scaled() == b.scaled() <==> a.rank() == b.rank(),
{
    assert(scale(0) == 0);
    let low = a.magnitude();
    let high = b.magnitude();
    if low < high {
        lemma_scale_increases(low, high);
    } else if high < low {
        lemma_scale_increases(high, low);
    }
    if 0 < low {
        lemma_scale_increases(0, low);
    }
    if 0 < high {
        lemma_scale_increases(0, high);
    }
}

/// Numeric `a < b`, told from the encodings alone.
pub proof fn lemma_less_than_by_encoding(a: Scalar, b: Scalar)
    ensures
        a.is_less_than(b) <==> !a.is_nan() && !b.is_nan() && a.rank() < b.rank(),
{
    lemma_order_by_encoding(a, b);
}

/// Zero is no units, and one is 2^149 units of 2^-149.
pub proof fn lemma_zero_and_one()
    ensures
        Scalar::zero().scaled() == 0,
        Scalar::one().scaled() == pow2(149),
        !Scalar::zero().is_nan(),
        !Scalar::one().is_nan(),
{
    lemma2_to64();
    lemma_pow2_adds(23, 126);
    assert(ONE_BITS as int / (FRACTION_RANGE as int) == 127);
    assert(ONE_BITS as int % (FRACTION_RANGE as int) == 0);
}

/// A number is less than zero, equal to zero or greater than zero, and only
/// one of the three; a NaN is none of them.
pub proof fn lemma_sign_trichotomy(x: Scalar)
    ensures
        x.is_nan() ==> !x.is_negative() && !x.is_zero() && !x.is_positive(),
        !x.is_nan() ==> (x.is_negative() || x.is_zero() || x.is_positive()),
        !(x.is_negative() && x.is_zero()),
        !(x.is_zero() && x.is_positive()),
        !(x.is_negative() && x.is_positive()),
{
}

/// A number is in `[0, 1]` exactly if it is no less than zero and no more
/// than one.
pub proof fn lemma_unit_interval(x: Scalar)
    ensures
        x.in_unit_interval() <==> !x.is_nan() && 0 <= x.scaled() <= pow2(149),
{
    lemma_zero_and_one();
}

/// Clamping a number lands in `[0, 1]`; clamping a NaN leaves it as it is.
pub proof fn lemma_clamp_lands_in_unit_interval(x: Scalar)
    ensures
        !x.is_nan() ==> x.clamp_unit().in_unit_interval(),
        x.is_nan() ==> x.clamp_unit() == x,
{
    lemma_zero_and_one();
}

/// Clamping changes nothing inside `[0, 1]`.
pub proof fn lemma_clamp_keeps_unit_interval(x: Scalar)
    requires
        x.in_unit_interval(),
    ensures
        x.clamp_unit() == x,
{
}

/// Clamping twice is clamping once.
pub proof fn lemma_clamp_idempotent(x: Scalar)
    ensures
        x.clamp_unit().clamp_unit() == x.clamp_unit(),
{
    lemma_zero_and_one();
}

/// What clamping does, told from the encodings alone: an encoding above that
/// of zero with its sign bit set, up to that of negative infinity, becomes
/// `+0.0`; one above that of one, up to that of infinity, becomes one; every
/// other stays.
pub proof fn lemma_clamp_by_encoding(x: Scalar)
    ensures
        x.clamp_unit() == if SIGN_BIT < x.bits <= SIGN_BIT + INFINITY_BITS {
            Scalar::zero()
        } else if ONE_BITS < x.bits <= INFINITY_BITS {
            Scalar::one()
        } else {
            x
        },
{
    lemma_less_than_by_encoding(x, Scalar::zero());
    lemma_less_than_by_encoding(Scalar::one(), x);
}

} // verus!
