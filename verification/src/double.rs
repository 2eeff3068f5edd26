//! IEEE-754 binary64 numbers as bit patterns.
//!
//! The classification and the order of doubles are functions of the 64 bits
//! alone, so they are stated and proved here over `u64`.

use vstd::arithmetic::power2::{
    lemma_pow2_pos, lemma_pow2_strictly_increases, lemma_pow2_unfold, pow2,
};
use vstd::prelude::*;

verus! {

/// The bit that holds the sign.
pub const SIGN_BIT: u64 = 0x8000_0000_0000_0000;

/// The pattern of positive infinity: every exponent bit set, no fraction bit.
pub const INFINITY_BITS: u64 = 0x7ff0_0000_0000_0000;

/// The bits of the fraction field.
pub const FRACTION_MASK: u64 = 0x000f_ffff_ffff_ffff;

/// An IEEE-754 binary64 number, held as its 64-bit pattern.
#[derive(Clone, Copy, Debug, PartialEq, Eq, Structural)]
pub struct Double {
    pub bits: u64,
}

impl Double {
    /// The eleven exponent bits.
    pub open spec fn exponent_field(self) -> u64 {
        (self.bits >> 52) & 0x7ff
    }

    /// The fifty-two fraction bits.
    pub open spec fn fraction_field(self) -> u64 {
        self.bits & FRACTION_MASK
    }

    /// Whether the sign bit is set (true of `-0.0` and of some NaNs too).
    pub open spec fn spec_is_sign_negative(self) -> bool {
        self.bits >= SIGN_BIT
    }

    /// The pattern without its sign bit.
    pub open spec fn magnitude(self) -> u64 {
        if self.bits >= SIGN_BIT {
            (self.bits - SIGN_BIT) as u64
        } else {
            self.bits
        }
    }

    /// Zero, subnormal or normal: not every exponent bit is set.
    pub open spec fn spec_is_finite(self) -> bool {
        self.exponent_field() != 0x7ff
    }

    /// Positive or negative infinity: every exponent bit is set and no
    /// fraction bit.
    pub open spec fn spec_is_infinite(self) -> bool {
        self.exponent_field() == 0x7ff && self.fraction_field() == 0
    }

    /// Not a number: every exponent bit is set and some fraction bit.
    pub open spec fn spec_is_nan(self) -> bool {
        self.exponent_field() == 0x7ff && self.fraction_field() != 0
    }

    /// The significand of a finite number as an integer: the fraction, with
    /// the leading bit that a normal number leaves unwritten.
    pub open spec fn significand(self) -> nat {
        if self.exponent_field() == 0 {
            self.fraction_field() as nat
        } else {
            (0x10_0000_0000_0000 + self.fraction_field()) as nat
        }
    }

    /// The power of two by which the significand of a finite number is
    /// scaled, counted from that of the smallest subnormal.
    pub open spec fn scale(self) -> nat {
        if self.exponent_field() == 0 {
            0
        } else {
            (self.exponent_field() - 1) as nat
        }
    }

    /// The number that a finite pattern stands for, in units of the smallest
    /// subnormal (2 to the power -1074).
    pub open spec fn scaled_value(self) -> int {
        if self.spec_is_sign_negative() {
            -(self.significand() * pow2(self.scale()))
        } else {
            (self.significand() * pow2(self.scale())) as int
        }
    }

    /// The place of a number on the line of integers: two numbers that are
    /// not NaN compare as their ranks do. Both zeros have rank 0.
    pub open spec fn rank(self) -> int {
        if self.spec_is_sign_negative() {
            -(self.magnitude() as int)
        } else {
            self.magnitude() as int
        }
    }

    /// IEEE-754 `<`: false as soon as one side is NaN.
    pub open spec fn spec_lt(self, other: Double) -> bool {
        !self.spec_is_nan() && !other.spec_is_nan() && self.rank() < other.rank()
    }

    /// IEEE-754 `<=`: false as soon as one side is NaN.
    pub open spec fn spec_le(self, other: Double) -> bool {
        !self.spec_is_nan() && !other.spec_is_nan() && self.rank() <= other.rank()
    }

    /// Wraps a bit pattern.
    pub fn from_bits(bits: u64) -> (d: Double)
        ensures
            d.bits == bits,
    {
        Double { bits }
    }

    /// The bit pattern.
    pub fn to_bits(self) -> (bits: u64)
        ensures
            bits == self.bits,
    {
        self.bits
    }

    /// The pattern without its sign bit.
    pub fn abs_bits(self) -> (m: u64)
        ensures
            m == self.magnitude(),
    {
        if self.bits >= SIGN_BIT {
            self.bits - SIGN_BIT
        } else {
            self.bits
        }
    }

    /// Whether the sign bit is set.
    #[verifier::when_used_as_spec(spec_is_sign_negative)]
    pub fn is_sign_negative(self) -> (r: bool)
        ensures
            r == self.spec_is_sign_negative(),
    {
        self.bits >= SIGN_BIT
    }

    /// Whether the number is neither infinite nor NaN.
    #[verifier::when_used_as_spec(spec_is_finite)]
    pub fn is_finite(self) -> (r: bool)
        ensures
            r == self.spec_is_finite(),
    {
        proof {
            lemma_classes(self);
        }
        self.abs_bits() < INFINITY_BITS
    }

    /// Whether the number is positive or negative infinity.
    #[verifier::when_used_as_spec(spec_is_infinite)]
    pub fn is_infinite(self) -> (r: bool)
        ensures
            r == self.spec_is_infinite(),
    {
        proof {
            lemma_classes(self);
        }
        self.abs_bits() == INFINITY_BITS
    }

    /// Whether the pattern is that of a NaN.
    #[verifier::when_used_as_spec(spec_is_nan)]
    pub fn is_nan(self) -> (r: bool)
        ensures
            r == self.spec_is_nan(),
    {
        proof {
            lemma_classes(self);
        }
        self.abs_bits() > INFINITY_BITS
    }

    /// IEEE-754 `<`, computed on the patterns.
    #[verifier::when_used_as_spec(spec_lt)]
    pub fn lt(self, other: Double) -> (r: bool)
        ensures
            r == self.spec_lt(other),
    {
        if self.is_nan() || other.is_nan() {
            false
        } else {
            let a: u64 = self.abs_bits();
            let b: u64 = other.abs_bits();
            if self.is_sign_negative() {
                if other.is_sign_negative() {
                    b < a
                } else {
                    a > 0 || b > 0
                }
            } else {
                !other.is_sign_negative() && a < b
            }
        }
    }

    /// IEEE-754 `<=`, computed on the patterns.
    #[verifier::when_used_as_spec(spec_le)]
    pub fn le(self, other: Double) -> (r: bool)
        ensures
            r == self.spec_le(other),
    {
        if self.is_nan() || other.is_nan() {
            false
        } else {
            !other.lt(self)
        }
    }
}

/// The class of a number shows in its magnitude: the finite numbers lie below
/// the pattern of infinity and the NaNs above it. The magnitude is the pattern
/// with the sign bit cleared, and the sign bit is the highest one.
pub proof fn lemma_classes(d: Double)
    ensures
        d.spec_is_finite() <==> d.magnitude() < INFINITY_BITS,
        d.spec_is_infinite() <==> d.magnitude() == INFINITY_BITS,
        d.spec_is_nan() <==> d.magnitude() > INFINITY_BITS,
        d.magnitude() == d.bits & 0x7fff_ffff_ffff_ffff,
        d.spec_is_sign_negative() <==> d.bits >> 63 == 1,
{
    let bits = d.bits;
    let m = d.magnitude();
    assert(m == bits & 0x7fff_ffff_ffff_ffff) by (bit_vector)
        requires
            m == if bits >= 0x8000_0000_0000_0000u64 {
                (bits - 0x8000_0000_0000_0000u64) as u64
            } else {
                bits
            },
    ;
    assert((bits & 0x7fff_ffff_ffff_ffff) < 0x7ff0_0000_0000_0000u64 <==> (bits >> 52) & 0x7ff
        != 0x7ff) by (bit_vector);
    assert((bits & 0x7fff_ffff_ffff_ffff) == 0x7ff0_0000_0000_0000u64 <==> ((bits >> 52) & 0x7ff
        == 0x7ff && bits & 0x000f_ffff_ffff_ffff == 0)) by (bit_vector);
    assert((bits & 0x7fff_ffff_ffff_ffff) > 0x7ff0_0000_0000_0000u64 <==> ((bits >> 52) & 0x7ff
        == 0x7ff && bits & 0x000f_ffff_ffff_ffff != 0)) by (bit_vector);
    assert(bits >= 0x8000_0000_0000_0000u64 <==> bits >> 63 == 1) by (bit_vector);
}

/// The magnitude of a pattern has the exponent above the fraction.
proof fn lemma_fields(d: Double)
    ensures
        d.magnitude() == d.exponent_field() * 0x10_0000_0000_0000 + d.fraction_field(),
        d.fraction_field() < 0x10_0000_0000_0000,
        d.exponent_field() <= 0x7ff,
{
    lemma_classes(d);
    let bits = d.bits;
    assert(bits & 0x7fff_ffff_ffff_ffff == ((bits >> 52) & 0x7ff) * 0x10_0000_0000_0000 + (bits
        & 0x000f_ffff_ffff_ffff)) by (bit_vector);
    assert(bits & 0x000f_ffff_ffff_ffff < 0x10_0000_0000_0000) by (bit_vector);
    assert((bits >> 52) & 0x7ff <= 0x7ff) by (bit_vector);
}

/// Among finite numbers a larger magnitude stands for a larger absolute
/// value.
proof fn lemma_magnitude_grows(a: Double, b: Double)
    requires
        a.spec_is_finite(),
        b.spec_is_finite(),
        a.magnitude() < b.magnitude(),
    ensures
        a.significand() * pow2(a.scale()) < b.significand() * pow2(b.scale()),
{
    lemma_fields(a);
    lemma_fields(b);
    let (ea, fa) = (a.exponent_field(), a.fraction_field());
    let (eb, fb) = (b.exponent_field(), b.fraction_field());
    let (sa, sb) = (a.significand() as int, b.significand() as int);
    let (pa, pb) = (pow2(a.scale()) as int, pow2(b.scale()) as int);
    lemma_pow2_pos(a.scale());
    lemma_pow2_pos(b.scale());
    assert(ea <= eb) by (nonlinear_arith)
        requires
            ea * 0x10_0000_0000_0000 + fa < eb * 0x10_0000_0000_0000 + fb,
            fa < 0x10_0000_0000_0000,
            fb < 0x10_0000_0000_0000,
    ;
    if a.scale() == b.scale() {
        assert(sa < sb);
        assert(sa * pa < sb * pb) by (nonlinear_arith)
            requires
                0 <= sa < sb,
                pa == pb,
                pa > 0,
        ;
    } else {
        assert(ea < eb);
        assert(a.scale() < b.scale());
        lemma_pow2_unfold((a.scale() + 1) as nat);
        if a.scale() + 1 < b.scale() {
            lemma_pow2_strictly_increases((a.scale() + 1) as nat, b.scale());
        }
        assert(2 * pa <= pb);
        assert(sa < 0x20_0000_0000_0000);
        assert(sb >= 0x10_0000_0000_0000);
        assert(sa * pa < sb * pb) by (nonlinear_arith)
            requires
                0 <= sa < 0x20_0000_0000_0000,
                sb >= 0x10_0000_0000_0000,
                2 * pa <= pb,
                pa > 0,
        ;
    }
}

/// Finite numbers compare as the numbers that their patterns stand for.
pub proof fn lemma_order_is_numeric(a: Double, b: Double)
    requires
        a.spec_is_finite(),
        b.spec_is_finite(),
    ensures
        a.spec_lt(b) <==> a.scaled_value() < b.scaled_value(),
        a.spec_le(b) <==> a.scaled_value() <= b.scaled_value(),
{
    lemma_fields(a);
    lemma_fields(b);
    lemma_pow2_pos(a.scale());
    lemma_pow2_pos(b.scale());
    let va = a.significand() * pow2(a.scale());
    let vb = b.significand() * pow2(b.scale());
    if a.magnitude() < b.magnitude() {
        lemma_magnitude_grows(a, b);
    } else if b.magnitude() < a.magnitude() {
        lemma_magnitude_grows(b, a);
    } else {
        assert(a.exponent_field() == b.exponent_field() && a.fraction_field()
            == b.fraction_field()) by (nonlinear_arith)
            requires
                a.exponent_field() * 0x10_0000_0000_0000 + a.fraction_field()
                    == b.exponent_field() * 0x10_0000_0000_0000 + b.fraction_field(),
                a.fraction_field() < 0x10_0000_0000_0000,
                b.fraction_field() < 0x10_0000_0000_0000,
        ;
        assert(va == vb);
    }
    assert(a.magnitude() == 0 ==> va == 0) by {
        if a.magnitude() == 0 {
            assert(a.exponent_field() == 0 && a.fraction_field() == 0) by (nonlinear_arith)
                requires
                    a.exponent_field() * 0x10_0000_0000_0000 + a.fraction_field() == 0,
            ;
            assert(0 * pow2(a.scale()) == 0);
        }
    }
    assert(b.magnitude() == 0 ==> vb == 0) by {
        if b.magnitude() == 0 {
            assert(b.exponent_field() == 0 && b.fraction_field() == 0) by (nonlinear_arith)
                requires
                    b.exponent_field() * 0x10_0000_0000_0000 + b.fraction_field() == 0,
            ;
            assert(0 * pow2(b.scale()) == 0);
        }
    }
    assert(va >= 0 && vb >= 0);
    assert(a.magnitude() > 0 ==> va > 0) by {
        if a.magnitude() > 0 {
            assert(a.significand() > 0);
            assert(a.significand() * pow2(a.scale()) > 0) by (nonlinear_arith)
                requires
                    a.significand() > 0,
                    pow2(a.scale()) > 0,
            ;
        }
    }
    assert(b.magnitude() > 0 ==> vb > 0) by {
        if b.magnitude() > 0 {
            assert(b.significand() > 0);
            assert(b.significand() * pow2(b.scale()) > 0) by (nonlinear_arith)
                requires
                    b.significand() > 0,
                    pow2(b.scale()) > 0,
            ;
        }
    }
}

/// The infinities lie beyond every finite number, and a NaN compares with
/// nothing.
pub proof fn lemma_order_at_the_ends(a: Double, b: Double)
    ensures
        a.spec_is_infinite() && !a.spec_is_sign_negative() && b.spec_is_finite() ==> b.spec_lt(a),
        a.spec_is_infinite() && a.spec_is_sign_negative() && b.spec_is_finite() ==> a.spec_lt(b),
        a.spec_is_infinite() && b.spec_is_infinite() ==> (a.spec_lt(b) <==> a.spec_is_sign_negative()
            && !b.spec_is_sign_negative()),
        a.spec_is_nan() || b.spec_is_nan() ==> !a.spec_lt(b) && !a.spec_le(b),
{
    lemma_classes(a);
    lemma_classes(b);
}

} // verus!
