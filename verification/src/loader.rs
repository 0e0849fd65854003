//! What the RAW decoder hands over.

use vstd::prelude::*;
use crate::scalar::Scalar;

verus! {

/// One decoded frame: the sensor's mosaic, one 16-bit sample for each
/// position, row after row, with the colour metadata of the camera.
#[derive(Debug, Clone)]
pub struct RawDataResult {
    /// The samples.
    pub data: Vec<u16>,
    /// Samples in a row.
    pub width: u32,
    /// Rows.
    pub height: u32,
    /// White-balance multipliers: red, green, blue, second green.
    pub wb_multipliers: [Scalar; 4],
    /// Calibration matrix of the camera, row by row; all zero where the
    /// camera gave none.
    pub color_matrix: [Scalar; 9],
}

impl RawDataResult {
    /// The mosaic holds one sample for each position of the frame.
    pub open spec fn is_consistent_spec(&self) -> bool {
        self.data@.len() == self.width * self.height
    }

    /// A frame, where `data` holds one sample for each of its `width` by
    /// `height` positions; `None` where it does not.
    pub fn new(
        data: Vec<u16>,
        width: u32,
        height: u32,
        wb_multipliers: [Scalar; 4],
        color_matrix: [Scalar; 9],
    ) -> (frame: Option<RawDataResult>)
        ensures
            frame is Some <==> data@.len() == width * height,
            frame matches Some(f) ==> {
                &&& f.is_consistent_spec()
                &&& f.data == data
                &&& f.width == width
                &&& f.height == height
                &&& f.wb_multipliers == wb_multipliers
                &&& f.color_matrix == color_matrix
            },
    {
        proof {
            assert(0 <= width * height <= u32::MAX * u32::MAX) by (nonlinear_arith)
                requires
                    0 <= width <= u32::MAX,
                    0 <= height <= u32::MAX,
            ;
        }
        let samples: u64 = (width as u64) * (height as u64);
        if data.len() as u128 != samples as u128 {
            return None;
        }
        Some(RawDataResult { data, width, height, wb_multipliers, color_matrix })
    }

    /// True when the mosaic holds one sample for each position of the frame.
    #[verifier::when_used_as_spec(is_consistent_spec)]
    pub fn is_consistent(&self) -> (consistent: bool)
        ensures
            consistent == self.is_consistent_spec(),
    {
        proof {
            assert(0 <= self.width * self.height <= u32::MAX * u32::MAX) by (nonlinear_arith)
                requires
                    0 <= self.width <= u32::MAX,
                    0 <= self.height <= u32::MAX,
            ;
        }
        let samples: u64 = (self.width as u64) * (self.height as u64);
        self.data.len() as u128 == samples as u128
    }
}

} // verus!
