//! The edit parameters of one image.
//!
//! Editing is non-destructive: the sensor data never changes, and what the
//! user has done to an image is this one small value, delivered to the
//! pipeline as a whole snapshot on every change.

use vstd::prelude::*;
use crate::scalar::{lemma_magnitude_order, Scalar, MAGNITUDE_MASK};

verus! {

/// Number of edit parameters.
pub const PARAM_COUNT: usize = 10;

/// The pattern of 5, the bound of the exposure in stops.
pub const EXPOSURE_BOUND_BITS: u32 = 0x40A0_0000;

/// The pattern of 100, the bound of every other parameter.
pub const PARAM_BOUND_BITS: u32 = 0x42C8_0000;

/// The bound of parameter `i`, in the order of [`EditParams::fields`].
pub open spec fn bound(i: int) -> Scalar {
    if i == 0 {
        Scalar { bits: EXPOSURE_BOUND_BITS }
    } else {
        Scalar { bits: PARAM_BOUND_BITS }
    }
}

/// `x` is a number between `-limit` and `limit`.
pub open spec fn is_within(x: Scalar, limit: Scalar) -> bool {
    x.is_finite() && -limit.scaled() <= x.scaled() <= limit.scaled()
}

/// True when `x` is a number between `-limit` and `limit`, for a limit
/// that is a finite number above zero.
fn within(x: Scalar, limit: Scalar) -> (inside: bool)
    requires
        limit.is_finite(),
        !limit.is_negative(),
    ensures
        inside == is_within(x, limit),
{
    proof {
        lemma_magnitude_order(x, limit);
        let bits = limit.bits;
        assert(bits <= MAGNITUDE_MASK ==> bits & MAGNITUDE_MASK == bits) by (bit_vector);
    }
    (x.bits & MAGNITUDE_MASK) <= limit.bits
}

/// The adjustments made to an image. Every parameter at zero leaves the
/// image as the camera recorded it.
#[derive(Debug, Clone, Copy, PartialEq, Eq, Structural)]
pub struct EditParams {
    /// Exposure in stops, from -5 to +5.
    pub exposure: Scalar,
    /// Contrast, from -100 to +100.
    pub contrast: Scalar,
    /// Highlights, from -100 to +100; negative values recover bright areas.
    pub highlights: Scalar,
    /// Shadows, from -100 to +100; positive values lift dark areas.
    pub shadows: Scalar,
    /// White point, from -100 to +100.
    pub whites: Scalar,
    /// Black point, from -100 to +100.
    pub blacks: Scalar,
    /// Vibrance, from -100 to +100.
    pub vibrance: Scalar,
    /// Saturation, from -100 (grey) to +100.
    pub saturation: Scalar,
    /// Colour temperature offset, from -100 (cooler) to +100 (warmer).
    pub temperature: Scalar,
    /// Tint, from -100 (green) to +100 (magenta).
    pub tint: Scalar,
}

impl Default for EditParams {
    /// No adjustment at all.
    fn default() -> (params: EditParams)
        ensures
            params == EditParams::neutral(),
    {
        EditParams {
            exposure: Scalar::zero(),
            contrast: Scalar::zero(),
            highlights: Scalar::zero(),
            shadows: Scalar::zero(),
            whites: Scalar::zero(),
            blacks: Scalar::zero(),
            vibrance: Scalar::zero(),
            saturation: Scalar::zero(),
            temperature: Scalar::zero(),
            tint: Scalar::zero(),
        }
    }
}

impl EditParams {
    /// The parameters that adjust nothing: every one is positive zero.
    pub open spec fn neutral() -> EditParams {
        EditParams {
            exposure: Scalar::zero(),
            contrast: Scalar::zero(),
            highlights: Scalar::zero(),
            shadows: Scalar::zero(),
            whites: Scalar::zero(),
            blacks: Scalar::zero(),
            vibrance: Scalar::zero(),
            saturation: Scalar::zero(),
            temperature: Scalar::zero(),
            tint: Scalar::zero(),
        }
    }

    /// The ten parameters in the order in which they are declared, which is
    /// the order in which the shader reads them.
    pub open spec fn fields(self) -> Seq<Scalar> {
        seq![
            self.exposure,
            self.contrast,
            self.highlights,
            self.shadows,
            self.whites,
            self.blacks,
            self.vibrance,
            self.saturation,
            self.temperature,
            self.tint,
        ]
    }

    /// Every parameter is zero, of either sign.
    pub open spec fn is_unedited_spec(&self) -> bool {
        forall|i: int| 0 <= i < PARAM_COUNT ==> (#[trigger] self.fields()[i]).is_zero()
    }

    /// Every parameter is a number within its bounds: the exposure between
    /// -5 and +5 stops, every other parameter between -100 and +100.
    pub open spec fn is_within_bounds_spec(&self) -> bool {
        forall|i: int| 0 <= i < PARAM_COUNT ==> is_within(#[trigger] self.fields()[i], bound(i))
    }

    /// Parameters that adjust nothing.
    pub fn new() -> (params: EditParams)
        ensures
            params == EditParams::neutral(),
    {
        EditParams::default()
    }

    /// True when the parameters equal the neutral ones as numbers, so that
    /// rendering with them changes nothing.
    #[verifier::when_used_as_spec(is_unedited_spec)]
    pub fn is_unedited(&self) -> (unedited: bool)
        ensures
            unedited == self.is_unedited_spec(),
    {
        let unedited = self.exposure.is_zero() && self.contrast.is_zero()
            && self.highlights.is_zero() && self.shadows.is_zero() && self.whites.is_zero()
            && self.blacks.is_zero() && self.vibrance.is_zero() && self.saturation.is_zero()
            && self.temperature.is_zero() && self.tint.is_zero();
        proof {
            let f = self.fields();
            if unedited {
                assert forall|i: int| 0 <= i < PARAM_COUNT implies (#[trigger] f[i]).is_zero() by {}
            } else {
                assert(f[0] == self.exposure && f[1] == self.contrast && f[2] == self.highlights
                    && f[3] == self.shadows && f[4] == self.whites && f[5] == self.blacks
                    && f[6] == self.vibrance && f[7] == self.saturation
                    && f[8] == self.temperature && f[9] == self.tint);
            }
        }
        unedited
    }

    /// True when every parameter is a number within its bounds.
    #[verifier::when_used_as_spec(is_within_bounds_spec)]
    pub fn is_within_bounds(&self) -> (inside: bool)
        ensures
            inside == self.is_within_bounds_spec(),
    {
        proof {
            assert(EXPOSURE_BOUND_BITS & MAGNITUDE_MASK < 0x7F80_0000u32) by (bit_vector);
            assert(PARAM_BOUND_BITS & MAGNITUDE_MASK < 0x7F80_0000u32) by (bit_vector);
        }
        let stops = Scalar { bits: EXPOSURE_BOUND_BITS };
        let hundred = Scalar { bits: PARAM_BOUND_BITS };
        let inside = within(self.exposure, stops) && within(self.contrast, hundred) && within(
            self.highlights,
            hundred,
        ) && within(self.shadows, hundred) && within(self.whites, hundred) && within(
            self.blacks,
            hundred,
        ) && within(self.vibrance, hundred) && within(self.saturation, hundred) && within(
            self.temperature,
            hundred,
        ) && within(self.tint, hundred);
        proof {
            let f = self.fields();
            assert(f[0] == self.exposure && f[1] == self.contrast && f[2] == self.highlights
                && f[3] == self.shadows && f[4] == self.whites && f[5] == self.blacks && f[6]
                == self.vibrance && f[7] == self.saturation && f[8] == self.temperature && f[9]
                == self.tint);
            if inside {
                assert forall|i: int| 0 <= i < PARAM_COUNT implies is_within(
                    #[trigger] f[i],
                    bound(i),
                ) by {}
            }
        }
        inside
    }

    /// Takes every adjustment back.
    pub fn reset(&mut self)
        ensures
            *final(self) == EditParams::neutral(),
    {
        *self = EditParams::default();
    }
}

/// The neutral parameters are unedited, and within their bounds.
pub proof fn lemma_neutral_is_unedited()
    ensures
        EditParams::neutral().is_unedited(),
        EditParams::neutral().is_within_bounds(),
{
    assert(0u32 & MAGNITUDE_MASK == 0) by (bit_vector);
    assert(EXPOSURE_BOUND_BITS & MAGNITUDE_MASK == EXPOSURE_BOUND_BITS) by (bit_vector);
    assert(PARAM_BOUND_BITS & MAGNITUDE_MASK == PARAM_BOUND_BITS) by (bit_vector);
    let zero = Scalar::zero();
    lemma_magnitude_order(zero, bound(0));
    lemma_magnitude_order(zero, bound(1));
    assert forall|i: int| 0 <= i < PARAM_COUNT implies is_within(
        #[trigger] EditParams::neutral().fields()[i],
        bound(i),
    ) by {
        assert(EditParams::neutral().fields()[i] == zero);
        assert(bound(i) == bound(0) || bound(i) == bound(1));
    }
}

} // verus!
