//! The decisions of the colour science.
//!
//! A camera's calibration matrix and white-balance coefficients come from
//! the RAW file and may be missing or malformed. Whatever they hold, the
//! pipeline gets a usable matrix and usable multipliers: where the metadata
//! cannot be used, the identity and neutral multipliers take its place.
//!
//! The arithmetic itself (inverting and multiplying matrices, dividing the
//! coefficients) is done in floating point by the caller. What is decided
//! here is when it is done at all and whether its result is taken.

use vstd::prelude::*;
use vstd::arithmetic::power2::*;
use crate::scalar::{
    lemma_magnitude_order, lemma_positive_value, Scalar, INFINITY_BITS, MAGNITUDE_MASK, ONE_BITS,
    ZERO_BITS,
};

verus! {

/// The pattern of 0.001, the tolerance within which a matrix counts as the
/// identity.
pub const EPSILON_BITS: u32 = 0x3A83_126F;

/// The smallest pattern of a number within the tolerance of one.
pub const NEAR_ONE_LOW: u32 = 0x3F7F_BE77;

/// The largest pattern of a number within the tolerance of one.
pub const NEAR_ONE_HIGH: u32 = 0x3F80_20C4;

/// The tolerance as a number.
pub open spec fn epsilon() -> Scalar {
    Scalar { bits: EPSILON_BITS }
}

/// `x` is finite and differs from `target` by less than the tolerance.
pub open spec fn is_within_epsilon(x: Scalar, target: Scalar) -> bool {
    &&& x.is_finite()
    &&& -epsilon().scaled() < x.scaled() - target.scaled() < epsilon().scaled()
}

/// Entry `i` of the identity matrix, row by row.
pub open spec fn identity_entry(i: int) -> Scalar {
    if i == 0 || i == 4 || i == 8 {
        Scalar::one()
    } else {
        Scalar::zero()
    }
}

/// The identity matrix, row by row.
pub open spec fn identity_matrix() -> Seq<Scalar> {
    Seq::new(9, |i: int| identity_entry(i))
}

/// Every entry is within the tolerance of the identity's entry.
pub open spec fn is_near_identity(matrix: Seq<Scalar>) -> bool {
    forall|i: int| 0 <= i < 9 ==> is_within_epsilon(#[trigger] matrix[i], identity_entry(i))
}

/// Every entry is zero: the camera gave no calibration.
pub open spec fn is_all_zero(matrix: Seq<Scalar>) -> bool {
    forall|i: int| 0 <= i < 9 ==> (#[trigger] matrix[i]).is_zero()
}

/// Every entry is finite.
pub open spec fn is_all_finite(matrix: Seq<Scalar>) -> bool {
    forall|i: int| 0 <= i < matrix.len() ==> (#[trigger] matrix[i]).is_finite()
}

/// The values, in units of two to the power -33, of the numbers that the
/// tolerance test rests on; the unit itself is `pow2(116)` of the units of
/// [`Scalar::scaled`].
proof fn lemma_tolerance_values()
    ensures
        Scalar::one().scaled() == 0x2_0000_0000 * pow2(116),
        epsilon().scaled() == 0x83_126F * pow2(116),
        (Scalar { bits: NEAR_ONE_LOW }).scaled() == 0x1_FF7C_EE00 * pow2(116),
        (Scalar { bits: (NEAR_ONE_LOW - 1) as u32 }).scaled() == 0x1_FF7C_EC00 * pow2(116),
        (Scalar { bits: NEAR_ONE_HIGH }).scaled() == 0x2_0083_1000 * pow2(116),
        (Scalar { bits: (NEAR_ONE_HIGH + 1) as u32 }).scaled() == 0x2_0083_1400 * pow2(116),
        Scalar::zero().scaled() == 0,
        pow2(116) > 0,
{
    let p = pow2(116);
    lemma2_to64();
    lemma_pow2_pos(116);
    lemma_pow2_adds(9, 116);
    lemma_pow2_adds(10, 116);
    assert(0x3F80_0000u32 & 0x7FFF_FFFFu32 == 0x3F80_0000u32) by (bit_vector);
    assert(0x3A83_126Fu32 & 0x7FFF_FFFFu32 == 0x3A83_126Fu32) by (bit_vector);
    assert(0x3F7F_BE77u32 & 0x7FFF_FFFFu32 == 0x3F7F_BE77u32) by (bit_vector);
    assert(0x3F7F_BE76u32 & 0x7FFF_FFFFu32 == 0x3F7F_BE76u32) by (bit_vector);
    assert(0x3F80_20C4u32 & 0x7FFF_FFFFu32 == 0x3F80_20C4u32) by (bit_vector);
    assert(0x3F80_20C5u32 & 0x7FFF_FFFFu32 == 0x3F80_20C5u32) by (bit_vector);
    assert(0u32 & 0x7FFF_FFFFu32 == 0u32) by (bit_vector);
    let one = Scalar::one();
    assert(one.exponent() == 127 && one.fraction() == 0);
    assert(0x80_0000 * (0x400 * p) == 0x2_0000_0000 * p) by (nonlinear_arith);
    let eps = epsilon();
    assert(eps.exponent() == 117 && eps.fraction() == 0x03_126F);
    let low = Scalar { bits: NEAR_ONE_LOW };
    assert(low.exponent() == 126 && low.fraction() == 0x7F_BE77);
    assert(0xFF_BE77 * (0x200 * p) == 0x1_FF7C_EE00 * p) by (nonlinear_arith);
    let below = Scalar { bits: (NEAR_ONE_LOW - 1) as u32 };
    assert(below.exponent() == 126 && below.fraction() == 0x7F_BE76);
    assert(0xFF_BE76 * (0x200 * p) == 0x1_FF7C_EC00 * p) by (nonlinear_arith);
    let high = Scalar { bits: NEAR_ONE_HIGH };
    assert(high.exponent() == 127 && high.fraction() == 0x20C4);
    assert(0x80_20C4 * (0x400 * p) == 0x2_0083_1000 * p) by (nonlinear_arith);
    let above = Scalar { bits: (NEAR_ONE_HIGH + 1) as u32 };
    assert(above.exponent() == 127 && above.fraction() == 0x20C5);
    assert(0x80_20C5 * (0x400 * p) == 0x2_0083_1400 * p) by (nonlinear_arith);
}

/// True when `x` is within the tolerance of zero.
pub fn is_near_zero(x: Scalar) -> (near: bool)
    ensures
        near == is_within_epsilon(x, Scalar::zero()),
{
    proof {
        lemma_tolerance_values();
        lemma_magnitude_order(x, epsilon());
        assert(EPSILON_BITS & MAGNITUDE_MASK == EPSILON_BITS) by (bit_vector);
    }
    (x.bits & MAGNITUDE_MASK) < EPSILON_BITS
}

/// True when `x` is within the tolerance of one.
pub fn is_near_one(x: Scalar) -> (near: bool)
    ensures
        near == is_within_epsilon(x, Scalar::one()),
{
    proof {
        lemma_tolerance_values();
        let p = pow2(116);
        let low = Scalar { bits: NEAR_ONE_LOW };
        let below = Scalar { bits: (NEAR_ONE_LOW - 1) as u32 };
        let high = Scalar { bits: NEAR_ONE_HIGH };
        let above = Scalar { bits: (NEAR_ONE_HIGH + 1) as u32 };
        lemma_positive_value(x);
        lemma_positive_value(low);
        lemma_positive_value(below);
        lemma_positive_value(high);
        lemma_positive_value(above);
        lemma_magnitude_order(x, low);
        lemma_magnitude_order(x, below);
        lemma_magnitude_order(x, high);
        lemma_magnitude_order(x, above);
        let v = x.scaled();
        let one = 0x2_0000_0000 * p;
        let eps = 0x83_126F * p;
        assert(0x1_FF7C_EC00 * p <= one - eps < 0x1_FF7C_EE00 * p) by (nonlinear_arith)
            requires
                p > 0,
                one == 0x2_0000_0000 * p,
                eps == 0x83_126F * p,
        ;
        assert(0x2_0083_1000 * p < one + eps <= 0x2_0083_1400 * p) by (nonlinear_arith)
            requires
                p > 0,
                one == 0x2_0000_0000 * p,
                eps == 0x83_126F * p,
        ;
        assert(eps < one) by (nonlinear_arith)
            requires
                p > 0,
                one == 0x2_0000_0000 * p,
                eps == 0x83_126F * p,
        ;
    }
    NEAR_ONE_LOW <= x.bits && x.bits <= NEAR_ONE_HIGH
}

/// True when the matrix is the identity within the tolerance: its diagonal
/// within 0.001 of one, everything else within 0.001 of zero.
pub fn is_identity_matrix(matrix: &[Scalar; 9]) -> (near: bool)
    ensures
        near == is_near_identity(matrix@),
{
    let near = is_near_one(matrix[0]) && is_near_zero(matrix[1]) && is_near_zero(matrix[2])
        && is_near_zero(matrix[3]) && is_near_one(matrix[4]) && is_near_zero(matrix[5])
        && is_near_zero(matrix[6]) && is_near_zero(matrix[7]) && is_near_one(matrix[8]);
    near
}

/// The identity matrix, row by row.
pub fn identity() -> (matrix: [Scalar; 9])
    ensures
        matrix@ == identity_matrix(),
{
    let one = Scalar::one();
    let zero = Scalar::zero();
    let matrix = [one, zero, zero, zero, one, zero, zero, zero, one];
    assert(matrix@ =~= identity_matrix());
    matrix
}

/// The matrix from CIE XYZ (D65) to linear sRGB of IEC 61966-2-1, row by
/// row: 3.2406, -1.5372, -0.4986; -0.9689, 1.8758, 0.0415; 0.0557, -0.2040,
/// 1.0570, each as the nearest binary32 number.
pub open spec fn xyz_to_srgb_matrix() -> Seq<Scalar> {
    seq![
        Scalar { bits: 0x404F_65FE },
        Scalar { bits: 0xBFC4_C2F8 },
        Scalar { bits: 0xBEFF_4880 },
        Scalar { bits: 0xBF78_09D5 },
        Scalar { bits: 0x3FF0_1A37 },
        Scalar { bits: 0x3D29_FBE7 },
        Scalar { bits: 0x3D64_25AF },
        Scalar { bits: 0xBE50_E560 },
        Scalar { bits: 0x3F87_4BC7 },
    ]
}

/// The matrix from CIE XYZ to linear sRGB, which the inverse of a
/// calibration matrix is multiplied by.
pub fn xyz_to_srgb() -> (matrix: [Scalar; 9])
    ensures
        matrix@ == xyz_to_srgb_matrix(),
{
    let matrix = [
        Scalar { bits: 0x404F_65FE },
        Scalar { bits: 0xBFC4_C2F8 },
        Scalar { bits: 0xBEFF_4880 },
        Scalar { bits: 0xBF78_09D5 },
        Scalar { bits: 0x3FF0_1A37 },
        Scalar { bits: 0x3D29_FBE7 },
        Scalar { bits: 0x3D64_25AF },
        Scalar { bits: 0xBE50_E560 },
        Scalar { bits: 0x3F87_4BC7 },
    ];
    assert(matrix@ =~= xyz_to_srgb_matrix());
    matrix
}

/// The calibration cannot or need not be inverted: the camera gave none,
/// or it is the identity already.
pub open spec fn skips_inversion(calibration: Seq<Scalar>) -> bool {
    is_all_zero(calibration) || is_near_identity(calibration)
}

/// The camera-to-display matrix that belongs to a calibration matrix and
/// to what inverting and multiplying gave: the product where the
/// calibration is to be inverted, was invertible, and gave finite numbers
/// only; the identity in every other case.
pub open spec fn display_matrix(calibration: Seq<Scalar>, product: Option<[Scalar; 9]>) -> Seq<
    Scalar,
> {
    match product {
        Some(p) if !skips_inversion(calibration) && is_all_finite(p@) => p@,
        _ => identity_matrix(),
    }
}

/// True when the calibration matrix must not be inverted: where the camera
/// gave none (every entry is zero), and where it is the identity within
/// the tolerance. The identity is then the camera-to-display matrix.
pub fn uses_identity(calibration: &[Scalar; 9]) -> (skip: bool)
    ensures
        skip == skips_inversion(calibration@),
{
    let mut all_zero = true;
    let mut i: usize = 0;
    while i < 9
        invariant
            i <= 9,
            all_zero == forall|k: int| 0 <= k < i ==> (#[trigger] calibration@[k]).is_zero(),
        decreases 9 - i,
    {
        if !calibration[i].is_zero() {
            all_zero = false;
        }
        i = i + 1;
    }
    all_zero || is_identity_matrix(calibration)
}

/// True when every entry of the matrix is finite.
pub fn all_finite(matrix: &[Scalar; 9]) -> (finite: bool)
    ensures
        finite == is_all_finite(matrix@),
{
    let mut finite = true;
    let mut i: usize = 0;
    while i < 9
        invariant
            i <= 9,
            finite == forall|k: int| 0 <= k < i ==> (#[trigger] matrix@[k]).is_finite(),
        decreases 9 - i,
    {
        if !matrix[i].is_finite() {
            finite = false;
        }
        i = i + 1;
    }
    finite
}

/// The camera-to-display matrix. `product` is what the caller computed
/// from the calibration matrix: the matrix [`xyz_to_srgb`] times the
/// inverse of the calibration, or `None` where the calibration has no
/// inverse or [`uses_identity`] said not to compute one. Whatever the
/// metadata holds, the result is a matrix of finite numbers: the
/// identity stands in where the product cannot be used.
pub fn calculate_cam_to_srgb_matrix(xyz_to_cam: &[Scalar; 9], product: Option<[Scalar; 9]>) -> (matrix:
    [Scalar; 9])
    ensures
        matrix@ == display_matrix(xyz_to_cam@, product),
{
    if uses_identity(xyz_to_cam) {
        return identity();
    }
    match product {
        Some(p) => {
            if all_finite(&p) {
                p
            } else {
                identity()
            }
        },
        None => identity(),
    }
}

/// A calibration matrix that is the identity gives the identity, without
/// anything being inverted: whatever the caller passes as the product.
pub proof fn lemma_identity_calibration(product: Option<[Scalar; 9]>)
    ensures
        skips_inversion(identity_matrix()),
        display_matrix(identity_matrix(), product) == identity_matrix(),
{
    lemma_tolerance_values();
    lemma_pow2_pos(116);
    let p = pow2(116);
    assert(0 < 0x83_126F * p) by (nonlinear_arith)
        requires
            p > 0,
    ;
    assert(ONE_BITS & MAGNITUDE_MASK < INFINITY_BITS) by (bit_vector);
    assert(ZERO_BITS & MAGNITUDE_MASK < INFINITY_BITS) by (bit_vector);
    assert forall|i: int| 0 <= i < 9 implies is_within_epsilon(
        #[trigger] identity_matrix()[i],
        identity_entry(i),
    ) by {}
}

/// A calibration matrix of zeros, which has no inverse, gives the
/// identity: whatever the caller passes as the product.
pub proof fn lemma_zero_calibration(calibration: Seq<Scalar>, product: Option<[Scalar; 9]>)
    requires
        is_all_zero(calibration),
    ensures
        display_matrix(calibration, product) == identity_matrix(),
{
}

/// The camera-to-display matrix is finite in every entry, whatever the
/// metadata and the arithmetic gave.
pub proof fn lemma_display_matrix_finite(calibration: Seq<Scalar>, product: Option<[Scalar; 9]>)
    ensures
        display_matrix(calibration, product).len() == 9,
        is_all_finite(display_matrix(calibration, product)),
{
    assert(ONE_BITS & MAGNITUDE_MASK < INFINITY_BITS) by (bit_vector);
    assert(ZERO_BITS & MAGNITUDE_MASK < INFINITY_BITS) by (bit_vector);
    assert forall|i: int| 0 <= i < 9 implies (#[trigger] identity_matrix()[i]).is_finite() by {}
}

/// A coefficient that the others can be divided by: finite and above zero.
pub open spec fn is_valid_divisor(g: Scalar) -> bool {
    g.is_finite() && g.is_positive()
}

/// The coefficients hold a green value to normalise by.
pub open spec fn has_valid_green(coeffs: Seq<Scalar>) -> bool {
    coeffs.len() >= 3 && is_valid_divisor(coeffs[1])
}

/// The coefficients hold a second green value of their own.
pub open spec fn has_second_green(coeffs: Seq<Scalar>) -> bool {
    coeffs.len() >= 4 && is_valid_divisor(coeffs[3])
}

/// Neutral multipliers: one for every channel.
pub open spec fn neutral_multipliers() -> Seq<Scalar> {
    Seq::new(4, |i: int| Scalar::one())
}

/// The multipliers before the last test: green is one, red and blue are
/// their quotients by green, and the second green is its quotient where
/// the camera gave one, and a copy of green where it did not.
pub open spec fn normalized(
    coeffs: Seq<Scalar>,
    red: Scalar,
    blue: Scalar,
    second_green: Scalar,
) -> Seq<Scalar> {
    seq![
        red,
        Scalar::one(),
        blue,
        if has_second_green(coeffs) {
            second_green
        } else {
            Scalar::one()
        },
    ]
}

/// The white-balance multipliers that belong to a camera's coefficients
/// and to the quotients that the caller computed from them.
pub open spec fn white_balance(
    coeffs: Seq<Scalar>,
    red: Scalar,
    blue: Scalar,
    second_green: Scalar,
) -> Seq<Scalar> {
    if has_valid_green(coeffs) && is_all_finite(normalized(coeffs, red, blue, second_green)) {
        normalized(coeffs, red, blue, second_green)
    } else {
        neutral_multipliers()
    }
}

/// The white-balance multipliers for the shader: red, green, blue, second
/// green, normalised so that green is one. `coeffs` are the camera's
/// coefficients in that order, three or four of them. `red`, `blue` and
/// `second_green` are what the caller got when it divided the first, third
/// and fourth coefficient by the second; `second_green` is not looked at
/// where the camera gave no fourth coefficient that can be used.
///
/// Green divided by itself is one, so green is set to one, and so is the
/// second green where it is a copy of green. Where the coefficients hold
/// no green value that can be divided by, or a quotient is not finite,
/// the multipliers are neutral.
pub fn normalize_white_balance(
    coeffs: &[Scalar],
    red: Scalar,
    blue: Scalar,
    second_green: Scalar,
) -> (multipliers: [Scalar; 4])
    ensures
        multipliers@ == white_balance(coeffs@, red, blue, second_green),
{
    let one = Scalar::one();
    let neutral = [one, one, one, one];
    assert(neutral@ =~= neutral_multipliers());
    if coeffs.len() < 3 || !(coeffs[1].is_finite() && coeffs[1].is_positive()) {
        return neutral;
    }
    let own_second = coeffs.len() >= 4 && coeffs[3].is_finite() && coeffs[3].is_positive();
    let fourth = if own_second { second_green } else { one };
    let multipliers = [red, one, blue, fourth];
    assert(multipliers@ =~= normalized(coeffs@, red, blue, second_green));
    proof {
        assert(ONE_BITS & MAGNITUDE_MASK < INFINITY_BITS) by (bit_vector);
    }
    if red.is_finite() && blue.is_finite() && fourth.is_finite() {
        multipliers
    } else {
        assert(!multipliers@[0].is_finite() || !multipliers@[2].is_finite()
            || !multipliers@[3].is_finite());
        neutral
    }
}

/// Whatever the camera gave and whatever the division gave, the
/// multipliers are four finite numbers and green is exactly one.
pub proof fn lemma_white_balance_usable(
    coeffs: Seq<Scalar>,
    red: Scalar,
    blue: Scalar,
    second_green: Scalar,
)
    ensures
        white_balance(coeffs, red, blue, second_green).len() == 4,
        is_all_finite(white_balance(coeffs, red, blue, second_green)),
        white_balance(coeffs, red, blue, second_green)[1] == Scalar::one(),
{
    assert(ONE_BITS & MAGNITUDE_MASK < INFINITY_BITS) by (bit_vector);
    assert forall|i: int| 0 <= i < 4 implies (#[trigger] neutral_multipliers()[i]).is_finite() by {}
}

/// For three coefficients, the second green is synthesised: it equals the
/// normalised green, which is one.
pub proof fn lemma_three_channel_white_balance(
    coeffs: Seq<Scalar>,
    red: Scalar,
    blue: Scalar,
    second_green: Scalar,
)
    requires
        coeffs.len() == 3,
    ensures
        white_balance(coeffs, red, blue, second_green)[1] == Scalar::one(),
        white_balance(coeffs, red, blue, second_green)[3] == white_balance(
            coeffs,
            red,
            blue,
            second_green,
        )[1],
{
}

/// Fewer than three coefficients, or a green coefficient that is zero,
/// negative, infinite or not a number, give neutral multipliers.
pub proof fn lemma_unusable_green(coeffs: Seq<Scalar>, red: Scalar, blue: Scalar, second_green: Scalar)
    requires
        !has_valid_green(coeffs),
    ensures
        white_balance(coeffs, red, blue, second_green) == neutral_multipliers(),
{
}

} // verus!
