use cgmath::{Matrix3, SquareMatrix};
use raw_editor::color::{
    all_finite, calculate_cam_to_srgb_matrix, identity, is_identity_matrix, is_near_one,
    is_near_zero, normalize_white_balance, uses_identity, xyz_to_srgb, EPSILON_BITS,
    NEAR_ONE_HIGH, NEAR_ONE_LOW,
};
use raw_editor::scalar::Scalar;

fn s(x: f32) -> Scalar {
    Scalar::from_bits(x.to_bits())
}

fn m(values: [f32; 9]) -> [Scalar; 9] {
    values.map(s)
}

fn f(values: [Scalar; 9]) -> [f32; 9] {
    values.map(|v| f32::from_bits(v.to_bits()))
}

const IDENTITY: [f32; 9] = [1.0, 0.0, 0.0, 0.0, 1.0, 0.0, 0.0, 0.0, 1.0];

/// The test that the tolerance stands for, in floating point.
fn float_is_identity(matrix: &[f32; 9]) -> bool {
    const EPSILON: f32 = 0.001;
    (matrix[0] - 1.0).abs() < EPSILON && matrix[1].abs() < EPSILON && matrix[2].abs() < EPSILON
        && matrix[3].abs() < EPSILON && (matrix[4] - 1.0).abs() < EPSILON
        && matrix[5].abs() < EPSILON && matrix[6].abs() < EPSILON && matrix[7].abs() < EPSILON
        && (matrix[8] - 1.0).abs() < EPSILON
}

/// What the caller computes: the display matrix times the inverse of the calibration.
fn product(xyz_to_cam: [f32; 9]) -> Option<[Scalar; 9]> {
    let c = xyz_to_cam;
    let cal = Matrix3::new(c[0], c[3], c[6], c[1], c[4], c[7], c[2], c[5], c[8]);
    let d = f(xyz_to_srgb());
    let disp = Matrix3::new(d[0], d[3], d[6], d[1], d[4], d[7], d[2], d[5], d[8]);
    let p = disp * cal.invert()?;
    Some(m([p[0][0], p[1][0], p[2][0], p[0][1], p[1][1], p[2][1], p[0][2], p[1][2], p[2][2]]))
}

#[test]
fn test_identity_matrix_detection() {
    let identity = m([1.0, 0.0, 0.0, 0.0, 1.0, 0.0, 0.0, 0.0, 1.0]);
    assert!(is_identity_matrix(&identity));

    let non_identity = m([1.5, 0.0, 0.0, 0.0, 1.0, 0.0, 0.0, 0.0, 1.0]);
    assert!(!is_identity_matrix(&non_identity));
}

#[test]
fn test_cam_to_srgb_calculation() {
    let xyz_to_cam = m([1.0, 0.0, 0.0, 0.0, 1.0, 0.0, 0.0, 0.0, 1.0]);

    let result = calculate_cam_to_srgb_matrix(&xyz_to_cam, None);

    assert!(f(result).iter().any(|&x| x != 0.0));
}

#[test]
fn tolerance_constants_are_the_float_boundaries() {
    assert_eq!(EPSILON_BITS, 0.001f32.to_bits());
    for bits in (NEAR_ONE_LOW - 64)..=(NEAR_ONE_HIGH + 64) {
        let x = f32::from_bits(bits);
        assert_eq!(is_near_one(Scalar::from_bits(bits)), (x - 1.0).abs() < 0.001, "{:#x}", bits);
    }
    for bits in (EPSILON_BITS - 64)..=(EPSILON_BITS + 64) {
        for sign in [0u32, 0x8000_0000] {
            let x = f32::from_bits(bits | sign);
            assert_eq!(is_near_zero(Scalar::from_bits(bits | sign)), x.abs() < 0.001);
        }
    }
}

#[test]
fn tolerance_agrees_with_floats_everywhere() {
    let mut bits: u32 = 0x1234_5678;
    for _ in 0..200_000 {
        bits = bits.wrapping_mul(1_664_525).wrapping_add(1_013_904_223);
        let x = f32::from_bits(bits);
        assert_eq!(is_near_one(Scalar::from_bits(bits)), (x - 1.0).abs() < 0.001, "{:#x}", bits);
        assert_eq!(is_near_zero(Scalar::from_bits(bits)), x.abs() < 0.001, "{:#x}", bits);
    }
    for x in [f32::NAN, f32::INFINITY, f32::NEG_INFINITY, -1.0, 0.0, -0.0, 1.0, 0.9995, 1.0005,
        0.99899, 1.00101, 0.0009, -0.0009, 0.0011, f32::MIN_POSITIVE, 1e-45]
    {
        assert_eq!(is_near_one(s(x)), (x - 1.0).abs() < 0.001, "{}", x);
        assert_eq!(is_near_zero(s(x)), x.abs() < 0.001, "{}", x);
    }
}

#[test]
fn identity_detection_agrees_with_floats() {
    let cases = [
        IDENTITY,
        [0.9995, 0.0005, -0.0005, 0.0, 1.0004, 0.0, 0.0009, -0.0009, 1.0],
        [1.0, 0.0, 0.0, 0.0, 1.0, 0.0011, 0.0, 0.0, 1.0],
        [1.0, 0.0, 0.0, 0.0, 0.998, 0.0, 0.0, 0.0, 1.0],
        [1.0, 0.0, 0.0, 0.0, 1.0, 0.0, 0.0, 0.0, f32::NAN],
        [1.0, f32::INFINITY, 0.0, 0.0, 1.0, 0.0, 0.0, 0.0, 1.0],
        [0.0; 9],
        [-1.0, 0.0, 0.0, 0.0, -1.0, 0.0, 0.0, 0.0, -1.0],
    ];
    for c in cases {
        assert_eq!(is_identity_matrix(&m(c)), float_is_identity(&c), "{:?}", c);
    }
}

#[test]
fn display_matrix_constant() {
    let expected = [3.2406f32, -1.5372, -0.4986, -0.9689, 1.8758, 0.0415, 0.0557, -0.2040, 1.0570];
    assert_eq!(f(xyz_to_srgb()), expected);
    assert_eq!(f(identity()), IDENTITY);
    assert!(all_finite(&xyz_to_srgb()));
}

#[test]
fn identity_calibration_takes_the_fast_path() {
    let cal = m(IDENTITY);
    assert!(uses_identity(&cal));
    // Whatever the caller computed, the identity is returned.
    assert_eq!(f(calculate_cam_to_srgb_matrix(&cal, None)), IDENTITY);
    assert_eq!(f(calculate_cam_to_srgb_matrix(&cal, product(IDENTITY))), IDENTITY);
    let almost = [1.0005, 0.0, 0.0, 0.0003, 0.9995, 0.0, 0.0, 0.0, 1.0];
    assert_eq!(f(calculate_cam_to_srgb_matrix(&m(almost), product(almost))), IDENTITY);
}

#[test]
fn singular_calibration_yields_identity() {
    let zero = [0.0f32; 9];
    assert!(uses_identity(&m(zero)));
    assert_eq!(product(zero), None);
    assert_eq!(f(calculate_cam_to_srgb_matrix(&m(zero), product(zero))), IDENTITY);
    assert_eq!(f(calculate_cam_to_srgb_matrix(&m(zero), Some(m([5.0; 9])))), IDENTITY);
    let negative_zero = [-0.0f32; 9];
    assert_eq!(f(calculate_cam_to_srgb_matrix(&m(negative_zero), None)), IDENTITY);
    // singular without being zero: the caller finds no inverse
    let singular = [1.0, 2.0, 3.0, 2.0, 4.0, 6.0, 0.0, 1.0, 0.0];
    assert!(!uses_identity(&m(singular)));
    assert_eq!(product(singular), None);
    assert_eq!(f(calculate_cam_to_srgb_matrix(&m(singular), product(singular))), IDENTITY);
}

#[test]
fn invertible_calibration_yields_the_product() {
    let cal = [2.0, 0.0, 0.0, 0.0, 2.0, 0.0, 0.0, 0.0, 2.0];
    assert!(!uses_identity(&m(cal)));
    let p = product(cal).unwrap();
    let result = f(calculate_cam_to_srgb_matrix(&m(cal), Some(p)));
    let d = f(xyz_to_srgb());
    for i in 0..9 {
        assert!((result[i] - d[i] * 0.5).abs() < 1e-6, "entry {}", i);
    }
    let nikon = [0.8598, -0.2848, -0.0857, -0.5618, 1.3606, 0.2195, -0.1002, 0.1773, 0.7137];
    let expected = product(nikon).unwrap();
    assert_eq!(calculate_cam_to_srgb_matrix(&m(nikon), Some(expected)), expected);
}

#[test]
fn non_finite_products_are_refused() {
    let cal = m([2.0, 0.0, 0.0, 0.0, 2.0, 0.0, 0.0, 0.0, 2.0]);
    for bad in [f32::NAN, f32::INFINITY, f32::NEG_INFINITY] {
        for at in 0..9 {
            let mut p = [0.25f32; 9];
            p[at] = bad;
            assert!(!all_finite(&m(p)));
            assert_eq!(f(calculate_cam_to_srgb_matrix(&cal, Some(m(p)))), IDENTITY);
        }
    }
    // overflow inside the caller's arithmetic
    let tiny = [1e-30, 0.0, 0.0, 0.0, 1e-30, 0.0, 0.0, 0.0, 1e-30];
    if let Some(p) = product(tiny) {
        let r = f(calculate_cam_to_srgb_matrix(&m(tiny), Some(p)));
        assert!(r.iter().all(|x| x.is_finite()));
    }
}

fn balance(coeffs: &[f32]) -> [f32; 4] {
    let c: Vec<Scalar> = coeffs.iter().map(|&x| s(x)).collect();
    let g = coeffs.get(1).copied().unwrap_or(f32::NAN);
    let q = |i: usize| s(coeffs.get(i).copied().unwrap_or(f32::NAN) / g);
    normalize_white_balance(&c, q(0), q(2), q(3)).map(|v| f32::from_bits(v.to_bits()))
}

#[test]
fn white_balance_divides_by_green() {
    assert_eq!(balance(&[2.0, 1.0, 1.5, 1.0]), [2.0, 1.0, 1.5, 1.0]);
    assert_eq!(balance(&[512.0, 256.0, 384.0, 128.0]), [2.0, 1.0, 1.5, 0.5]);
    assert_eq!(balance(&[2.1, 0.7, 1.4]), [2.1 / 0.7, 1.0, 1.4 / 0.7, 1.0]);
}

#[test]
fn three_channels_synthesize_second_green() {
    let mut bits: u32 = 0x0BAD_5EED;
    for _ in 0..20_000 {
        let mut next = || {
            bits = bits.wrapping_mul(1_664_525).wrapping_add(1_013_904_223);
            f32::from_bits(bits & 0x7FFF_FFFF)
        };
        let (r, g, b) = (next(), next(), next());
        if !(r > 0.0 && g > 0.0 && b > 0.0) {
            continue;
        }
        let w = balance(&[r, g, b]);
        assert_eq!(w[1], 1.0);
        assert_eq!(w[3], w[1]);
        assert!(w.iter().all(|x| x.is_finite()));
        if g.is_finite() && (r / g).is_finite() && (b / g).is_finite() {
            assert_eq!(w, [r / g, 1.0, b / g, 1.0]);
            assert_eq!(g / g, 1.0);
        } else {
            assert_eq!(w, [1.0; 4]);
        }
    }
}

#[test]
fn missing_or_malformed_green_is_neutral() {
    assert_eq!(balance(&[]), [1.0; 4]);
    assert_eq!(balance(&[2.0]), [1.0; 4]);
    assert_eq!(balance(&[2.0, 1.0]), [1.0; 4]);
    assert_eq!(balance(&[2.0, 0.0, 1.5]), [1.0; 4]);
    assert_eq!(balance(&[2.0, -0.0, 1.5, 1.0]), [1.0; 4]);
    assert_eq!(balance(&[2.0, -1.0, 1.5, 1.0]), [1.0; 4]);
    assert_eq!(balance(&[2.0, f32::NAN, 1.5, 1.0]), [1.0; 4]);
    assert_eq!(balance(&[2.0, f32::INFINITY, 1.5, 1.0]), [1.0; 4]);
}

#[test]
fn malformed_second_green_falls_back_to_green() {
    assert_eq!(balance(&[2.0, 1.0, 1.5, 0.0]), [2.0, 1.0, 1.5, 1.0]);
    assert_eq!(balance(&[2.0, 1.0, 1.5, f32::NAN]), [2.0, 1.0, 1.5, 1.0]);
    assert_eq!(balance(&[2.0, 1.0, 1.5, -3.0]), [2.0, 1.0, 1.5, 1.0]);
    assert_eq!(balance(&[2.0, 1.0, 1.5, f32::INFINITY]), [2.0, 1.0, 1.5, 1.0]);
    assert_eq!(balance(&[4.0, 2.0, 3.0, 1.0, 9.0]), [2.0, 1.0, 1.5, 0.5]);
}

#[test]
fn malformed_red_or_blue_is_neutral() {
    assert_eq!(balance(&[f32::NAN, 1.0, 1.5, 1.0]), [1.0; 4]);
    assert_eq!(balance(&[2.0, 1.0, f32::INFINITY, 1.0]), [1.0; 4]);
    assert_eq!(balance(&[f32::MAX, 1e-10, 1.5]), [1.0; 4]);
}
