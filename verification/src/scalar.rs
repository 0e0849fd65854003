//! Single-precision values as bit patterns.
//!
//! The pipeline's parameters, white-balance coefficients and matrices are
//! IEEE 754 binary32 numbers that the GPU computes with. The host only
//! stores them, lays them out and classifies them, all of which is exact on
//! the 32-bit pattern: one sign bit, eight exponent bits, 23 fraction bits.

use vstd::prelude::*;
use vstd::arithmetic::power2::*;

verus! {

/// All bits but the sign.
pub const MAGNITUDE_MASK: u32 = 0x7FFF_FFFF;

/// The magnitude of infinity; larger magnitudes are not numbers.
pub const INFINITY_BITS: u32 = 0x7F80_0000;

/// Two to the power 23: the weight of the exponent's lowest bit, and the
/// hidden leading bit of a normal number's significand.
pub const HIDDEN_BIT: u32 = 0x0080_0000;

/// The pattern of positive zero.
pub const ZERO_BITS: u32 = 0;

/// The pattern of the number one.
pub const ONE_BITS: u32 = 0x3F80_0000;

/// A binary32 value, held as its bit pattern.
#[derive(Clone, Copy, Debug, PartialEq, Eq, Structural)]
pub struct Scalar {
    pub bits: u32,
}

impl Scalar {
    /// Positive zero.
    pub open spec fn zero_spec() -> Scalar {
        Scalar { bits: ZERO_BITS }
    }

    /// The number one.
    pub open spec fn one_spec() -> Scalar {
        Scalar { bits: ONE_BITS }
    }

    /// Positive zero.
    #[verifier::when_used_as_spec(zero_spec)]
    pub fn zero() -> (s: Scalar)
        ensures
            s == Self::zero_spec(),
    {
        Scalar { bits: ZERO_BITS }
    }

    /// The number one.
    #[verifier::when_used_as_spec(one_spec)]
    pub fn one() -> (s: Scalar)
        ensures
            s == Self::one_spec(),
    {
        Scalar { bits: ONE_BITS }
    }

    /// The pattern without its sign bit: the pattern of the absolute value.
    pub open spec fn magnitude(self) -> u32 {
        self.bits & MAGNITUDE_MASK
    }

    /// The biased exponent: the eight bits below the sign.
    pub open spec fn exponent(self) -> nat {
        (self.magnitude() / HIDDEN_BIT) as nat
    }

    /// The fraction: the lowest 23 bits.
    pub open spec fn fraction(self) -> nat {
        (self.magnitude() % HIDDEN_BIT) as nat
    }

    /// The sign bit is set.
    pub open spec fn is_negative(self) -> bool {
        self.bits > MAGNITUDE_MASK
    }

    /// The absolute value of a finite number, in units of two to the power
    /// -149, which all finite numbers are whole multiples of: the fraction
    /// alone for a subnormal number, the fraction with the hidden bit,
    /// shifted by the exponent, for a normal one.
    pub open spec fn scaled_magnitude(self) -> nat {
        compose(self.exponent(), self.fraction())
    }

    /// The value of a finite number, in units of two to the power -149.
    pub open spec fn scaled(self) -> int {
        if self.is_negative() {
            -(self.scaled_magnitude() as int)
        } else {
            self.scaled_magnitude() as int
        }
    }

    /// Not a number.
    pub open spec fn is_nan_spec(self) -> bool {
        self.magnitude() > INFINITY_BITS
    }

    /// Neither infinite nor not a number.
    pub open spec fn is_finite_spec(self) -> bool {
        self.magnitude() < INFINITY_BITS
    }

    /// Positive or negative zero.
    pub open spec fn is_zero_spec(self) -> bool {
        self.magnitude() == 0
    }

    /// Greater than zero; positive infinity counts.
    pub open spec fn is_positive_spec(self) -> bool {
        0 < self.bits <= INFINITY_BITS
    }

    /// Equality of the two numbers as IEEE 754 defines it: the two zeros are
    /// equal, and what is not a number equals nothing, not even itself.
    pub open spec fn same_value_spec(self, other: Scalar) -> bool {
        &&& !self.is_nan_spec()
        &&& !other.is_nan_spec()
        &&& (self.bits == other.bits || (self.is_zero_spec() && other.is_zero_spec()))
    }

    /// The value with the given bit pattern.
    pub fn from_bits(bits: u32) -> (s: Scalar)
        ensures
            s.bits == bits,
    {
        Scalar { bits }
    }

    /// The bit pattern.
    pub fn to_bits(self) -> (bits: u32)
        ensures
            bits == self.bits,
    {
        self.bits
    }

    /// True when the pattern is not a number.
    #[verifier::when_used_as_spec(is_nan_spec)]
    pub fn is_nan(self) -> (b: bool)
        ensures
            b == self.is_nan_spec(),
    {
        (self.bits & MAGNITUDE_MASK) > INFINITY_BITS
    }

    /// True when the number is neither infinite nor not a number.
    #[verifier::when_used_as_spec(is_finite_spec)]
    pub fn is_finite(self) -> (b: bool)
        ensures
            b == self.is_finite_spec(),
    {
        (self.bits & MAGNITUDE_MASK) < INFINITY_BITS
    }

    /// True when the number is zero, of either sign.
    #[verifier::when_used_as_spec(is_zero_spec)]
    pub fn is_zero(self) -> (b: bool)
        ensures
            b == self.is_zero_spec(),
    {
        (self.bits & MAGNITUDE_MASK) == 0
    }

    /// True when the number is greater than zero; positive infinity is.
    #[verifier::when_used_as_spec(is_positive_spec)]
    pub fn is_positive(self) -> (b: bool)
        ensures
            b == self.is_positive_spec(),
    {
        0 < self.bits && self.bits <= INFINITY_BITS
    }

    /// True when the two are equal as numbers.
    #[verifier::when_used_as_spec(same_value_spec)]
    pub fn same_value(self, other: Scalar) -> (b: bool)
        ensures
            b == self.same_value_spec(other),
    {
        !self.is_nan() && !other.is_nan() && (self.bits == other.bits || (self.is_zero()
            && other.is_zero()))
    }
}

/// The scaled magnitude that belongs to an exponent and a fraction.
pub open spec fn compose(exponent: nat, fraction: nat) -> nat {
    if exponent == 0 {
        fraction
    } else {
        ((HIDDEN_BIT + fraction) * pow2((exponent - 1) as nat)) as nat
    }
}

/// The scaled magnitudes of one exponent lie between two neighbouring
/// powers of two.
proof fn lemma_compose_bounds(exponent: nat, fraction: nat)
    requires
        fraction < HIDDEN_BIT,
    ensures
        compose(exponent, fraction) < HIDDEN_BIT * pow2(exponent),
        exponent > 0 ==> HIDDEN_BIT * pow2((exponent - 1) as nat) <= compose(exponent, fraction),
{
    if exponent == 0 {
        lemma2_to64();
    } else {
        let p = pow2((exponent - 1) as nat);
        lemma_pow2_pos((exponent - 1) as nat);
        lemma_pow2_unfold(exponent);
        assert((HIDDEN_BIT + fraction) * p < HIDDEN_BIT * (2 * p)) by (nonlinear_arith)
            requires
                fraction < HIDDEN_BIT,
                p > 0,
        ;
        assert(HIDDEN_BIT * p <= (HIDDEN_BIT + fraction) * p) by (nonlinear_arith)
            requires
                p > 0,
        ;
    }
}

/// A larger exponent, or a larger fraction at the same exponent, gives a
/// larger scaled magnitude.
proof fn lemma_compose_monotone(e1: nat, f1: nat, e2: nat, f2: nat)
    requires
        f1 < HIDDEN_BIT,
        f2 < HIDDEN_BIT,
        e1 < e2 || (e1 == e2 && f1 < f2),
    ensures
        compose(e1, f1) < compose(e2, f2),
{
    if e1 == e2 {
        if e1 > 0 {
            let p = pow2((e1 - 1) as nat);
            lemma_pow2_pos((e1 - 1) as nat);
            assert((HIDDEN_BIT + f1) * p < (HIDDEN_BIT + f2) * p) by (nonlinear_arith)
                requires
                    f1 < f2,
                    p > 0,
            ;
        }
    } else {
        lemma_compose_bounds(e1, f1);
        lemma_compose_bounds(e2, f2);
        let low = pow2(e1);
        let high = pow2((e2 - 1) as nat);
        if e1 < e2 - 1 {
            lemma_pow2_strictly_increases(e1, (e2 - 1) as nat);
        }
        assert(HIDDEN_BIT * low <= HIDDEN_BIT * high) by (nonlinear_arith)
            requires
                low <= high,
        ;
    }
}

/// Among the magnitudes, the order of the patterns is the order of the
/// numbers: a larger pattern is a larger absolute value.
pub proof fn lemma_magnitude_order(a: Scalar, b: Scalar)
    ensures
        a.magnitude() < b.magnitude() <==> a.scaled_magnitude() < b.scaled_magnitude(),
        a.magnitude() == b.magnitude() <==> a.scaled_magnitude() == b.scaled_magnitude(),
{
    let (ea, fa) = (a.exponent(), a.fraction());
    let (eb, fb) = (b.exponent(), b.fraction());
    assert(a.magnitude() == ea * HIDDEN_BIT + fa && fa < HIDDEN_BIT);
    assert(b.magnitude() == eb * HIDDEN_BIT + fb && fb < HIDDEN_BIT);
    if ea < eb || (ea == eb && fa < fb) {
        lemma_compose_monotone(ea, fa, eb, fb);
        assert(a.magnitude() < b.magnitude()) by (nonlinear_arith)
            requires
                a.magnitude() == ea * HIDDEN_BIT + fa,
                b.magnitude() == eb * HIDDEN_BIT + fb,
                fa < HIDDEN_BIT,
                fb < HIDDEN_BIT,
                ea < eb || (ea == eb && fa < fb),
        ;
    } else if eb < ea || (ea == eb && fb < fa) {
        lemma_compose_monotone(eb, fb, ea, fa);
        assert(b.magnitude() < a.magnitude()) by (nonlinear_arith)
            requires
                a.magnitude() == ea * HIDDEN_BIT + fa,
                b.magnitude() == eb * HIDDEN_BIT + fb,
                fa < HIDDEN_BIT,
                fb < HIDDEN_BIT,
                eb < ea || (ea == eb && fb < fa),
        ;
    }
}

/// Zero is the number whose value is zero.
pub proof fn lemma_zero_value(a: Scalar)
    ensures
        a.is_zero() <==> a.scaled() == 0,
{
    let zero = Scalar { bits: ZERO_BITS };
    assert(0u32 & MAGNITUDE_MASK == 0) by (bit_vector);
    assert(zero.scaled_magnitude() == 0);
    lemma_magnitude_order(a, zero);
}

/// A number is positive where its value is above zero, and then its
/// pattern is its magnitude.
pub proof fn lemma_positive_value(a: Scalar)
    ensures
        a.is_positive() <==> a.scaled() > 0 && !a.is_nan(),
        !a.is_negative() ==> a.magnitude() == a.bits,
{
    let bits = a.bits;
    assert(bits <= MAGNITUDE_MASK ==> bits & MAGNITUDE_MASK == bits) by (bit_vector);
    lemma_zero_value(a);
}

/// Two finite numbers are equal as numbers exactly where their values
/// are equal.
pub proof fn lemma_same_value(a: Scalar, b: Scalar)
    requires
        a.is_finite(),
        b.is_finite(),
    ensures
        a.same_value(b) <==> a.scaled() == b.scaled(),
{
    let (x, y) = (a.bits, b.bits);
    lemma_magnitude_order(a, b);
    lemma_zero_value(a);
    lemma_zero_value(b);
    assert((x > MAGNITUDE_MASK) == (y > MAGNITUDE_MASK) && x & MAGNITUDE_MASK == y & MAGNITUDE_MASK
        ==> x == y) by (bit_vector);
}

} // verus!
