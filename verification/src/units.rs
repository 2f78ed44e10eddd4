//! Exact quantities for screen geometry.
//!
//! Hosts report a display's scale factor as a binary64 number. Every such
//! number that is positive and finite is an integer significand times a power
//! of two, and it is kept in that form; lengths and coordinates derived from
//! it keep a numerator, a denominator and a power of two apart. Nothing is
//! rounded: the meaning of each value is a real number, given by its view.

use vstd::prelude::*;
use vstd::arithmetic::power2::{lemma2_to64, lemma_pow2_pos, lemma_pow2_unfold, pow2};

verus! {

/// Two to the power of 52, the width of binary64's fraction field: the
/// implicit leading one of a normal number's significand.
pub const BINARY64_HIDDEN_ONE: u64 = 0x10_0000_0000_0000;

/// The bit pattern of positive infinity: the first that is no finite number.
pub const BINARY64_INFINITY: u64 = 0x7ff0_0000_0000_0000;

/// The exponent field at which an integer significand has the weight one.
pub const BINARY64_UNIT_EXPONENT: i16 = 1075;

/// The power of two by which the significand of a subnormal number, and of
/// the smallest normal numbers, is weighted.
pub const BINARY64_MIN_EXPONENT: i16 = -1074;

/// The power of two by which the significand of the largest finite numbers
/// is weighted.
pub const BINARY64_MAX_EXPONENT: i16 = 971;

/// A display's scale factor: how many physical pixels make one logical unit.
/// It is a positive number, held as a significand times a power of two.
#[derive(Clone, Copy, Debug)]
pub struct ScaleFactor {
    significand: u64,
    exponent: i16,
}

/// A length in logical units, which is not negative: a fraction times a power
/// of two.
#[derive(Clone, Copy, Debug)]
pub struct LogicalLength {
    numerator: u32,
    denominator: u64,
    exponent: i16,
}

/// A coordinate in logical units, of either sign: a fraction times a power of
/// two, less a whole number of units.
#[derive(Clone, Copy, Debug)]
pub struct LogicalCoordinate {
    numerator: u32,
    denominator: u64,
    exponent: i16,
    inset: u32,
}

/// Two to the power of `exponent`, which may be negative.
pub open spec fn power_of_two(exponent: int) -> real {
    if exponent >= 0 {
        pow2(exponent as nat) as real
    } else {
        1real / (pow2((-exponent) as nat) as real)
    }
}

/// The exponent field of a binary64 bit pattern.
pub open spec fn binary64_exponent_field(bits: u64) -> int {
    (bits as int / BINARY64_HIDDEN_ONE as int) % 2048
}

/// The fraction field of a binary64 bit pattern.
pub open spec fn binary64_fraction_field(bits: u64) -> int {
    bits as int % BINARY64_HIDDEN_ONE as int
}

/// Whether the bit pattern is a positive finite binary64 number: the sign is
/// clear, the pattern is not zero, and the exponent field is not all ones.
pub open spec fn binary64_is_positive_finite(bits: u64) -> bool {
    0 < bits < BINARY64_INFINITY
}

/// The significand of a finite binary64 number as an integer: the fraction
/// field, with the implicit leading one in front unless the number is
/// subnormal.
pub open spec fn binary64_significand(bits: u64) -> int {
    if binary64_exponent_field(bits) == 0 {
        binary64_fraction_field(bits)
    } else {
        BINARY64_HIDDEN_ONE as int + binary64_fraction_field(bits)
    }
}

/// The power of two by which the integer significand of a finite binary64
/// number is weighted.
pub open spec fn binary64_exponent(bits: u64) -> int {
    if binary64_exponent_field(bits) == 0 {
        BINARY64_MIN_EXPONENT as int
    } else {
        binary64_exponent_field(bits) - BINARY64_UNIT_EXPONENT
    }
}

/// The number that a positive finite binary64 bit pattern stands for.
pub open spec fn binary64_value(bits: u64) -> real {
    binary64_significand(bits) as real * power_of_two(binary64_exponent(bits))
}

impl View for ScaleFactor {
    type V = real;

    closed spec fn view(&self) -> real {
        if self.significand > 0 {
            self.significand as real * power_of_two(self.exponent as int)
        } else {
            1real
        }
    }
}

impl ScaleFactor {
    #[verifier::type_invariant]
    spec fn positive(self) -> bool {
        &&& 0 < self.significand < 2 * BINARY64_HIDDEN_ONE
        &&& BINARY64_MIN_EXPONENT <= self.exponent <= BINARY64_MAX_EXPONENT
    }

    /// The scale factor of a display on which a logical unit is one pixel.
    pub fn one() -> (scale: ScaleFactor)
        ensures
            scale@ == 1real,
    {
        proof {
            power_of_two_zero();
        }
        ScaleFactor { significand: 1, exponent: 0 }
    }

    /// Reads a scale factor from the bit pattern of a binary64 number, which
    /// is how hosts report it. Every positive finite number is read, and read
    /// exactly. Zero, the negative numbers, the infinities and the NaNs are
    /// no scale factor and give `None`.
    pub fn from_binary64(bits: u64) -> (scale: Option<ScaleFactor>)
        ensures
            scale is Some <==> binary64_is_positive_finite(bits),
            scale matches Some(s) ==> s@ == binary64_value(bits),
    {
        if bits == 0 || bits >= BINARY64_INFINITY {
            return None;
        }
        let field: u64 = bits / BINARY64_HIDDEN_ONE;
        let fraction: u64 = bits % BINARY64_HIDDEN_ONE;
        if field == 0 {
            Some(ScaleFactor { significand: fraction, exponent: BINARY64_MIN_EXPONENT })
        } else {
            Some(
                ScaleFactor {
                    significand: BINARY64_HIDDEN_ONE + fraction,
                    exponent: field as i16 - BINARY64_UNIT_EXPONENT,
                },
            )
        }
    }

    /// The scale factor in parts: a positive significand and the power of two
    /// that it is multiplied by.
    pub fn parts(&self) -> (parts: (u64, i16))
        ensures
            parts.0 > 0,
            self@ == parts.0 as real * power_of_two(parts.1 as int),
    {
        proof {
            use_type_invariant(self);
        }
        (self.significand, self.exponent)
    }
}

impl View for LogicalLength {
    type V = real;

    closed spec fn view(&self) -> real {
        if self.denominator > 0 {
            self.numerator as real / self.denominator as real * power_of_two(self.exponent as int)
        } else {
            0real
        }
    }
}

impl LogicalLength {
    #[verifier::type_invariant]
    spec fn proper(self) -> bool {
        &&& self.denominator > 0
        &&& -BINARY64_MAX_EXPONENT <= self.exponent <= -BINARY64_MIN_EXPONENT
    }

    /// A whole number of logical units.
    pub fn whole(units: u32) -> (length: LogicalLength)
        ensures
            length@ == units as real,
    {
        proof {
            power_of_two_zero();
            assert(1u64 as real == 1real);
        }
        LogicalLength { numerator: units, denominator: 1, exponent: 0 }
    }

    /// The logical length of `pixels` physical pixels on a display with the
    /// given scale factor: the pixels divided by the scale factor.
    pub fn from_physical(pixels: u32, scale: &ScaleFactor) -> (length: LogicalLength)
        ensures
            length@ == pixels as real / scale@,
    {
        proof {
            use_type_invariant(scale);
            power_of_two_is_positive(scale.exponent as int);
            power_of_two_negated(scale.exponent as int);
            real_division_by_scaled(
                pixels as real,
                scale.significand as real,
                power_of_two(scale.exponent as int),
                power_of_two(-(scale.exponent as int)),
            );
        }
        LogicalLength {
            numerator: pixels,
            denominator: scale.significand,
            exponent: -scale.exponent,
        }
    }

    /// The length in parts: numerator, positive denominator, and the power of
    /// two that their quotient is multiplied by.
    pub fn parts(&self) -> (parts: (u32, u64, i16))
        ensures
            parts.1 > 0,
            self@ == parts.0 as real / parts.1 as real * power_of_two(parts.2 as int),
    {
        proof {
            use_type_invariant(self);
        }
        (self.numerator, self.denominator, self.exponent)
    }
}

impl View for LogicalCoordinate {
    type V = real;

    closed spec fn view(&self) -> real {
        self.numerator as real / self.denominator as real * power_of_two(self.exponent as int)
            - self.inset as real
    }
}

impl LogicalCoordinate {
    #[verifier::type_invariant]
    spec fn proper(self) -> bool {
        &&& self.denominator > 0
        &&& -BINARY64_MAX_EXPONENT - 1 <= self.exponent <= -BINARY64_MIN_EXPONENT
    }

    /// The coordinate that lies `inset` logical units before the end of
    /// `length`: `length - inset`.
    pub fn before_end(length: &LogicalLength, inset: u32) -> (at: LogicalCoordinate)
        ensures
            at@ == length@ - inset as real,
    {
        proof {
            use_type_invariant(length);
        }
        LogicalCoordinate {
            numerator: length.numerator,
            denominator: length.denominator,
            exponent: length.exponent,
            inset,
        }
    }

    /// The coordinate that lies `inset` logical units before the middle of
    /// `length`: `length / 2 - inset`.
    pub fn before_middle(length: &LogicalLength, inset: u32) -> (at: LogicalCoordinate)
        ensures
            at@ == length@ / 2real - inset as real,
    {
        proof {
            use_type_invariant(length);
            power_of_two_halved(length.exponent as int);
            real_scaled_by_half(
                length.numerator as real / length.denominator as real,
                power_of_two(length.exponent as int),
                power_of_two(length.exponent as int - 1),
            );
        }
        LogicalCoordinate {
            numerator: length.numerator,
            denominator: length.denominator,
            exponent: length.exponent - 1,
            inset,
        }
    }

    /// The coordinate in parts: numerator, positive denominator, the power of
    /// two that their quotient is multiplied by, and the whole number that is
    /// then taken away.
    pub fn parts(&self) -> (parts: (u32, u64, i16, u32))
        ensures
            parts.1 > 0,
            self@ == parts.0 as real / parts.1 as real * power_of_two(parts.2 as int)
                - parts.3 as real,
    {
        proof {
            use_type_invariant(self);
        }
        (self.numerator, self.denominator, self.exponent, self.inset)
    }
}

/// A power of two is positive, whatever the exponent.
pub proof fn power_of_two_is_positive(exponent: int)
    ensures
        power_of_two(exponent) > 0real,
{
    if exponent >= 0 {
        lemma_pow2_pos(exponent as nat);
    } else {
        lemma_pow2_pos((-exponent) as nat);
        let q = pow2((-exponent) as nat) as real;
        assert(1real / q > 0real) by (nonlinear_arith)
            requires
                q > 0real,
        ;
    }
}

/// A scale factor is a positive number, so dividing by it is defined.
pub proof fn scale_factor_is_positive(scale: ScaleFactor)
    ensures
        scale@ > 0real,
{
    if scale.significand > 0 {
        power_of_two_is_positive(scale.exponent as int);
        let m = scale.significand as real;
        let p = power_of_two(scale.exponent as int);
        assert(m * p > 0real) by (nonlinear_arith)
            requires
                m > 0real,
                p > 0real,
        ;
    }
}

/// Every positive finite binary64 number is greater than zero as a real
/// number, the subnormal ones too.
pub proof fn positive_finite_binary64_is_positive(bits: u64)
    requires
        binary64_is_positive_finite(bits),
    ensures
        binary64_value(bits) > 0real,
{
    power_of_two_is_positive(binary64_exponent(bits));
    let m = binary64_significand(bits) as real;
    let p = power_of_two(binary64_exponent(bits));
    assert(m * p > 0real) by (nonlinear_arith)
        requires
            m > 0real,
            p > 0real,
    ;
}

/// A logical length is not negative.
pub proof fn logical_length_is_not_negative(length: LogicalLength)
    ensures
        length@ >= 0real,
{
    if length.denominator > 0 {
        power_of_two_is_positive(length.exponent as int);
        let n = length.numerator as real;
        let d = length.denominator as real;
        let p = power_of_two(length.exponent as int);
        assert(n / d * p >= 0real) by (nonlinear_arith)
            requires
                n >= 0real,
                d > 0real,
                p > 0real,
        ;
    }
}

/// Two to the power of zero is one.
proof fn power_of_two_zero()
    ensures
        power_of_two(0) == 1real,
{
    lemma2_to64();
    assert(1nat as real == 1real);
}

/// Two to the power of a negated exponent is the inverse.
proof fn power_of_two_negated(exponent: int)
    ensures
        power_of_two(-exponent) * power_of_two(exponent) == 1real,
{
    if exponent == 0 {
        power_of_two_zero();
    } else if exponent > 0 {
        lemma_pow2_pos(exponent as nat);
        let q = pow2(exponent as nat) as real;
        assert((-(-exponent)) as nat == exponent as nat);
        assert(power_of_two(-exponent) == 1real / q);
        assert(power_of_two(exponent) == q);
        assert(1real / q * q == 1real) by (nonlinear_arith)
            requires
                q > 0real,
        ;
    } else {
        lemma_pow2_pos((-exponent) as nat);
        let q = pow2((-exponent) as nat) as real;
        assert(power_of_two(-exponent) == q);
        assert(power_of_two(exponent) == 1real / q);
        assert(q * (1real / q) == 1real) by (nonlinear_arith)
            requires
                q > 0real,
        ;
    }
}

/// Lowering the exponent by one halves a power of two.
proof fn power_of_two_halved(exponent: int)
    ensures
        power_of_two(exponent - 1) * 2real == power_of_two(exponent),
{
    if exponent >= 1 {
        lemma_pow2_unfold(exponent as nat);
        let lower = pow2((exponent - 1) as nat);
        assert(pow2(exponent as nat) == 2 * lower);
        assert(power_of_two(exponent - 1) == lower as real);
        assert(power_of_two(exponent) == (2 * lower) as real);
        assert((2 * lower) as real == lower as real * 2real);
    } else {
        let size = (-exponent) as nat;
        lemma_pow2_unfold(size + 1);
        lemma_pow2_pos(size);
        let q = pow2(size) as real;
        assert((-(exponent - 1)) as nat == size + 1);
        assert(pow2(size + 1) == 2 * pow2(size));
        assert(pow2(size + 1) as real == 2real * q);
        assert(power_of_two(exponent - 1) == 1real / (2real * q));
        assert(1real / (2real * q) * 2real == 1real / q) by (nonlinear_arith)
            requires
                q > 0real,
        ;
        if exponent == 0 {
            power_of_two_zero();
            assert(q == 1real);
            assert(1real / q == 1real) by (nonlinear_arith)
                requires
                    q == 1real,
            ;
        } else {
            assert(power_of_two(exponent) == 1real / q);
        }
    }
}

/// Dividing by a scaled number is dividing by the number and multiplying by
/// the inverse of the scale.
proof fn real_division_by_scaled(p: real, m: real, t: real, inverse: real)
    requires
        m > 0real,
        t > 0real,
        inverse * t == 1real,
    ensures
        p / m * inverse == p / (m * t),
{
    assert(p / m * inverse == p / (m * t)) by (nonlinear_arith)
        requires
            m > 0real,
            t > 0real,
            inverse * t == 1real,
    ;
}

/// Multiplying by half a scale is halving the product.
proof fn real_scaled_by_half(x: real, whole: real, half: real)
    requires
        half * 2real == whole,
    ensures
        x * half == x * whole / 2real,
{
    assert(x * half == x * whole / 2real) by (nonlinear_arith)
        requires
            half * 2real == whole,
    ;
}

} // verus!
