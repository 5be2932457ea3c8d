//! The scalar layer of the kernel.
//!
//! A [`Scalar`] carries the bit pattern of an IEEE 754 double. The kernel
//! never interprets those bits numerically itself: every arithmetic step goes
//! through one of the operations below, and each operation's result is named
//! by an uninterpreted spec function of the operand bits. A contract that
//! speaks of those names therefore pins the exact sequence of floating-point
//! operations a function performs, even though the numeric value of each step
//! is left to the arithmetic.
//!
//! The executable operations hand the bits to `libm` (and, for the plain
//! arithmetic operators, to the double type's own operators, reached through
//! `bytemuck` bit casts). Negation and the sign function are fully specified
//! by IEEE 754 at the bit level, so they are implemented and verified here
//! rather than trusted.

use vstd::prelude::*;

verus! {

/// Sign bit of an IEEE 754 double.
pub const SIGN_BIT: u64 = 0x8000_0000_0000_0000;

/// Exponent mask of an IEEE 754 double.
pub const EXP_MASK: u64 = 0x7FF0_0000_0000_0000;

/// Mantissa mask of an IEEE 754 double.
pub const MANTISSA_MASK: u64 = 0x000F_FFFF_FFFF_FFFF;

/// Bits of 0.0.
pub const ZERO_BITS: u64 = 0x0000_0000_0000_0000;
/// Bits of 1.0.
pub const ONE_BITS: u64 = 0x3FF0_0000_0000_0000;
/// Bits of -1.0.
pub const NEG_ONE_BITS: u64 = 0xBFF0_0000_0000_0000;
/// Bits of 2.0.
pub const TWO_BITS: u64 = 0x4000_0000_0000_0000;
/// Bits of 3.0.
pub const THREE_BITS: u64 = 0x4008_0000_0000_0000;
/// Bits of 0.5.
pub const HALF_BITS: u64 = 0x3FE0_0000_0000_0000;
/// Bits of 0.25.
pub const QUARTER_BITS: u64 = 0x3FD0_0000_0000_0000;
/// Bits of 1.5.
pub const ONE_POINT_FIVE_BITS: u64 = 0x3FF8_0000_0000_0000;
/// Bits of 10.0.
pub const TEN_BITS: u64 = 0x4024_0000_0000_0000;
/// Bits of 4.0.
pub const FOUR_BITS: u64 = 0x4010_0000_0000_0000;
/// Bits of pi.
pub const PI_BITS: u64 = 0x4009_21FB_5444_2D18;
/// Bits of tau, the full turn 2*pi.
pub const TAU_BITS: u64 = 0x4019_21FB_5444_2D18;
/// Bits of -2.0.
pub const NEG_TWO_BITS: u64 = 0xC000_0000_0000_0000;
/// Bits of the quiet NaN that failed evaluations propagate.
pub const NAN_BITS: u64 = 0x7FF8_0000_0000_0000;
/// Bits of 1e-4, the default sampling resolution.
pub const DELTA_DEFAULT_BITS: u64 = 0x3F1A_36E2_EB1C_432D;
/// Bits of 1e-8, the seam clamp used by periodic shapes.
pub const SEAM_EPS_BITS: u64 = 0x3E45_798E_E230_8C3A;
/// Bits of 1e-3.
pub const MILLI_BITS: u64 = 0x3F50_624D_D2F1_A9FC;
/// Bits of 1e-2.
pub const CENTI_BITS: u64 = 0x3F84_7AE1_47AE_147B;

/// Result bits of IEEE 754 addition on the operand bits; a NaN sum is
/// reported as the quiet NaN, so the result is determined by the operands.
pub uninterp spec fn add_bits(a: u64, b: u64) -> u64;

/// Result bits of IEEE 754 subtraction on the operand bits; a NaN
/// difference is reported as the quiet NaN.
pub uninterp spec fn sub_bits(a: u64, b: u64) -> u64;

/// Result bits of IEEE 754 multiplication on the operand bits; a NaN
/// product is reported as the quiet NaN.
pub uninterp spec fn mul_bits(a: u64, b: u64) -> u64;

/// Result bits of IEEE 754 division on the operand bits; a NaN quotient
/// is reported as the quiet NaN.
pub uninterp spec fn div_bits(a: u64, b: u64) -> u64;

/// Result bits of IEEE 754 square root on the operand bits.
pub uninterp spec fn sqrt_bits(a: u64) -> u64;

/// Result bits of the double-precision sine of the operand bits.
pub uninterp spec fn sin_bits(a: u64) -> u64;

/// Result bits of the double-precision cosine of the operand bits.
pub uninterp spec fn cos_bits(a: u64) -> u64;

/// Result bits of the double-precision hyperbolic sine of the operand bits.
pub uninterp spec fn sinh_bits(a: u64) -> u64;

/// Result bits of the double-precision hyperbolic cosine of the operand bits.
pub uninterp spec fn cosh_bits(a: u64) -> u64;

/// The sample count a caller-chosen resolution denotes: the saturating
/// integer part of the double with the given bits.
pub uninterp spec fn count_from_bits(a: u64) -> usize;

/// The saturating conversion of the double with the given bits to `i64`.
pub uninterp spec fn i64_from_bits(a: u64) -> i64;

/// Bits of the double nearest to the given `usize`.
pub uninterp spec fn bits_of_usize(n: usize) -> u64;

/// Bits of the double nearest to the given `i64`.
pub uninterp spec fn bits_of_i64(n: i64) -> u64;

/// A real scalar of the kernel, carried as the bit pattern of an IEEE 754
/// double.
#[derive(Clone, Copy, PartialEq, Eq, Structural, Debug)]
pub struct Scalar {
    pub bits: u64,
}

/// Whether the bits encode a NaN: all exponent bits set and a non-zero
/// mantissa.
pub open spec fn is_nan_bits(bits: u64) -> bool {
    bits & EXP_MASK == EXP_MASK && bits & MANTISSA_MASK != 0
}

/// The sum `a + b`.
pub open spec fn s_add(a: Scalar, b: Scalar) -> Scalar {
    Scalar { bits: add_bits(a.bits, b.bits) }
}

/// The difference `a - b`.
pub open spec fn s_sub(a: Scalar, b: Scalar) -> Scalar {
    Scalar { bits: sub_bits(a.bits, b.bits) }
}

/// The product `a * b`.
pub open spec fn s_mul(a: Scalar, b: Scalar) -> Scalar {
    Scalar { bits: mul_bits(a.bits, b.bits) }
}

/// The quotient `a / b`.
pub open spec fn s_div(a: Scalar, b: Scalar) -> Scalar {
    Scalar { bits: div_bits(a.bits, b.bits) }
}

/// The negation `-a`: IEEE 754 negation flips exactly the sign bit.
pub open spec fn s_neg(a: Scalar) -> Scalar {
    Scalar { bits: a.bits ^ SIGN_BIT }
}

/// The square root of `a`.
pub open spec fn s_sqrt(a: Scalar) -> Scalar {
    Scalar { bits: sqrt_bits(a.bits) }
}

/// The sine of `a`.
pub open spec fn s_sin(a: Scalar) -> Scalar {
    Scalar { bits: sin_bits(a.bits) }
}

/// The cosine of `a`.
pub open spec fn s_cos(a: Scalar) -> Scalar {
    Scalar { bits: cos_bits(a.bits) }
}

/// The hyperbolic sine of `a`.
pub open spec fn s_sinh(a: Scalar) -> Scalar {
    Scalar { bits: sinh_bits(a.bits) }
}

/// The hyperbolic cosine of `a`.
pub open spec fn s_cosh(a: Scalar) -> Scalar {
    Scalar { bits: cosh_bits(a.bits) }
}

/// The sign of `a`: 1.0 for positive doubles (zero included), -1.0 for
/// negative ones, the quiet NaN for NaN. IEEE 754 determines this from the
/// bits alone.
pub open spec fn s_signum(a: Scalar) -> Scalar {
    if is_nan_bits(a.bits) {
        Scalar { bits: NAN_BITS }
    } else if a.bits & SIGN_BIT == SIGN_BIT {
        Scalar { bits: NEG_ONE_BITS }
    } else {
        Scalar { bits: ONE_BITS }
    }
}

/// The scalar with the given bit pattern.
pub open spec fn s_of(bits: u64) -> Scalar {
    Scalar { bits }
}

impl Scalar {
    /// The scalar whose IEEE 754 double has the given bit pattern.
    pub fn from_bits(bits: u64) -> (r: Scalar)
        ensures
            r.bits == bits,
    {
        Scalar { bits }
    }

    /// The bit pattern of this scalar's IEEE 754 double.
    pub fn to_bits(self) -> (r: u64)
        ensures
            r == self.bits,
    {
        self.bits
    }

    /// Relies on the double type's `+` operator: IEEE 754 addition.
    /// `libm::copysign` of a value with itself is the bit-exact identity; it
    /// only gives the bit-cast operands their floating type.
    /// IEEE 754 determines the result bits fully except for NaN payloads,
    /// which it and Rust leave open; a NaN result is therefore canonicalized
    /// to the quiet NaN, so the named result is a function of the operand
    /// bits on every machine.
    #[verifier::external_body]
    pub(crate) fn add_s(self, rhs: Scalar) -> (r: Scalar)
        ensures
            r.bits == add_bits(self.bits, rhs.bits),
    {
        let a = libm::copysign(bytemuck::cast(self.bits), bytemuck::cast(self.bits));
        let b = libm::copysign(bytemuck::cast(rhs.bits), bytemuck::cast(rhs.bits));
        let x = a + b;
        Scalar { bits: if x.is_nan() { NAN_BITS } else { bytemuck::cast(x) } }
    }

    /// Relies on the double type's `-` operator: IEEE 754 subtraction, with
    /// a NaN result canonicalized to the quiet NaN.
    #[verifier::external_body]
    pub(crate) fn sub_s(self, rhs: Scalar) -> (r: Scalar)
        ensures
            r.bits == sub_bits(self.bits, rhs.bits),
    {
        let a = libm::copysign(bytemuck::cast(self.bits), bytemuck::cast(self.bits));
        let b = libm::copysign(bytemuck::cast(rhs.bits), bytemuck::cast(rhs.bits));
        let x = a - b;
        Scalar { bits: if x.is_nan() { NAN_BITS } else { bytemuck::cast(x) } }
    }

    /// Relies on the double type's `*` operator: IEEE 754 multiplication,
    /// with a NaN result canonicalized to the quiet NaN.
    #[verifier::external_body]
    pub(crate) fn mul_s(self, rhs: Scalar) -> (r: Scalar)
        ensures
            r.bits == mul_bits(self.bits, rhs.bits),
    {
        let a = libm::copysign(bytemuck::cast(self.bits), bytemuck::cast(self.bits));
        let b = libm::copysign(bytemuck::cast(rhs.bits), bytemuck::cast(rhs.bits));
        let x = a * b;
        Scalar { bits: if x.is_nan() { NAN_BITS } else { bytemuck::cast(x) } }
    }

    /// Relies on the double type's `/` operator: IEEE 754 division. Division
    /// by zero yields an infinity or NaN, never a panic; a NaN result is
    /// canonicalized to the quiet NaN.
    #[verifier::external_body]
    pub(crate) fn div_s(self, rhs: Scalar) -> (r: Scalar)
        ensures
            r.bits == div_bits(self.bits, rhs.bits),
    {
        let a = libm::copysign(bytemuck::cast(self.bits), bytemuck::cast(self.bits));
        let b = libm::copysign(bytemuck::cast(rhs.bits), bytemuck::cast(rhs.bits));
        let x = a / b;
        Scalar { bits: if x.is_nan() { NAN_BITS } else { bytemuck::cast(x) } }
    }

    /// The negation `-self`. IEEE 754 negation flips exactly the sign bit,
    /// so no floating-point step is needed.
    pub(crate) fn neg_s(self) -> (r: Scalar)
        ensures
            r == s_neg(self),
    {
        Scalar { bits: self.bits ^ SIGN_BIT }
    }

    /// Relies on `libm::sqrt`: correctly rounded IEEE 754 square root.
    #[verifier::external_body]
    pub(crate) fn sqrt(self) -> (r: Scalar)
        ensures
            r.bits == sqrt_bits(self.bits),
    {
        Scalar { bits: bytemuck::cast(libm::sqrt(bytemuck::cast(self.bits))) }
    }

    /// Relies on `libm::sin`.
    #[verifier::external_body]
    pub(crate) fn sin(self) -> (r: Scalar)
        ensures
            r.bits == sin_bits(self.bits),
    {
        Scalar { bits: bytemuck::cast(libm::sin(bytemuck::cast(self.bits))) }
    }

    /// Relies on `libm::cos`.
    #[verifier::external_body]
    pub(crate) fn cos(self) -> (r: Scalar)
        ensures
            r.bits == cos_bits(self.bits),
    {
        Scalar { bits: bytemuck::cast(libm::cos(bytemuck::cast(self.bits))) }
    }

    /// Relies on `libm::sinh`.
    #[verifier::external_body]
    pub(crate) fn sinh(self) -> (r: Scalar)
        ensures
            r.bits == sinh_bits(self.bits),
    {
        Scalar { bits: bytemuck::cast(libm::sinh(bytemuck::cast(self.bits))) }
    }

    /// Relies on `libm::cosh`.
    #[verifier::external_body]
    pub(crate) fn cosh(self) -> (r: Scalar)
        ensures
            r.bits == cosh_bits(self.bits),
    {
        Scalar { bits: bytemuck::cast(libm::cosh(bytemuck::cast(self.bits))) }
    }

    /// The sign function: 1.0 for positive doubles (zero included), -1.0 for
    /// negative ones, the quiet NaN for NaN. Decided by the bits alone, so
    /// implemented and verified here.
    pub(crate) fn signum_s(self) -> (r: Scalar)
        ensures
            r == s_signum(self),
    {
        if self.bits & EXP_MASK == EXP_MASK && self.bits & MANTISSA_MASK != 0 {
            Scalar { bits: NAN_BITS }
        } else if self.bits & SIGN_BIT == SIGN_BIT {
            Scalar { bits: NEG_ONE_BITS }
        } else {
            Scalar { bits: ONE_BITS }
        }
    }

    /// Relies on `libm::trunc` and Rust's saturating float-to-integer cast:
    /// the integer part of the double, clamped to the `usize` range, 0 for
    /// NaN.
    #[verifier::external_body]
    pub(crate) fn to_count(self) -> (r: usize)
        ensures
            r == count_from_bits(self.bits),
    {
        libm::trunc(bytemuck::cast(self.bits)) as usize
    }

    /// Relies on `libm::trunc` and Rust's saturating float-to-integer cast:
    /// the integer part of the double, clamped to the `i64` range, 0 for NaN.
    #[verifier::external_body]
    pub(crate) fn to_i64(self) -> (r: i64)
        ensures
            r == i64_from_bits(self.bits),
    {
        libm::trunc(bytemuck::cast(self.bits)) as i64
    }

    /// Relies on `num_traits::cast` from `u64`: the nearest double to `n`.
    /// `libm::copysign` of the value with itself is the bit-exact identity
    /// that gives the result its floating type.
    #[verifier::external_body]
    pub(crate) fn from_usize(n: usize) -> (r: Scalar)
        ensures
            r.bits == bits_of_usize(n),
    {
        let x = num_traits::cast(n as u64).unwrap_or(bytemuck::cast(NAN_BITS));
        Scalar { bits: bytemuck::cast(libm::copysign(x, x)) }
    }

    /// Relies on `num_traits::cast` from `i64`: the nearest double to `n`.
    #[verifier::external_body]
    pub(crate) fn from_i64(n: i64) -> (r: Scalar)
        ensures
            r.bits == bits_of_i64(n),
    {
        let x = num_traits::cast(n).unwrap_or(bytemuck::cast(NAN_BITS));
        Scalar { bits: bytemuck::cast(libm::copysign(x, x)) }
    }
}

} // verus!
