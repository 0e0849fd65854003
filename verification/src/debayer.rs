//! The first stage of the shader, on the host.
//!
//! The fragment shader reconstructs a colour for each sensor position
//! from the sample at that position and two of its neighbours. Which
//! neighbours, and which channel each of the three samples stands for,
//! depends on the parity of the row and of the column. Positions outside
//! the frame are clamped to its edge. This module states that rule over
//! the integer samples, before they are scaled to the unit range.

use vstd::prelude::*;

verus! {

/// Samples are scaled by this value to the unit range: 12-bit sensor data.
pub const SENSOR_RANGE: u32 = 4096;

/// The three samples that make up the colour at one position.
#[derive(Clone, Copy, Debug, PartialEq, Eq, Structural)]
pub struct RawRgb {
    pub r: u16,
    pub g: u16,
    pub b: u16,
}

/// `v` brought into the range from `low` to `high`.
pub open spec fn clamp(v: int, low: int, high: int) -> int {
    if v < low {
        low
    } else if v > high {
        high
    } else {
        v
    }
}

/// The sample at column `x` of row `y`, positions outside the frame being
/// clamped to its edge.
pub open spec fn sample_at(mosaic: Seq<u16>, width: int, height: int, x: int, y: int) -> u16 {
    mosaic[clamp(y, 0, height - 1) * width + clamp(x, 0, width - 1)]
}

/// The colour at column `x` of row `y`.
///
/// The frame is tiled by cells of two by two positions: red at a cell's
/// top left, green at its top right and bottom left, blue at its bottom
/// right. The colour at a position is made of the three channels of its
/// cell: a red position takes green from the right and blue from below
/// right; a green position in a red row takes red from the left and blue
/// from below; a green position in a blue row takes red from above and
/// blue from the right; a blue position takes red from above left and
/// green from the left.
pub open spec fn debayer_spec(mosaic: Seq<u16>, width: int, height: int, x: int, y: int) -> RawRgb {
    let here = sample_at(mosaic, width, height, x, y);
    if y % 2 == 0 {
        if x % 2 == 0 {
            RawRgb {
                r: here,
                g: sample_at(mosaic, width, height, x + 1, y),
                b: sample_at(mosaic, width, height, x + 1, y + 1),
            }
        } else {
            RawRgb {
                r: sample_at(mosaic, width, height, x - 1, y),
                g: here,
                b: sample_at(mosaic, width, height, x, y + 1),
            }
        }
    } else {
        if x % 2 == 0 {
            RawRgb {
                r: sample_at(mosaic, width, height, x, y - 1),
                g: here,
                b: sample_at(mosaic, width, height, x + 1, y),
            }
        } else {
            RawRgb {
                r: sample_at(mosaic, width, height, x - 1, y - 1),
                g: sample_at(mosaic, width, height, x - 1, y),
                b: here,
            }
        }
    }
}

/// The position lies in a frame that the mosaic fills.
pub open spec fn is_in_frame(mosaic: Seq<u16>, width: u32, height: u32, x: u32, y: u32) -> bool {
    mosaic.len() == width * height && x < width && y < height
}

/// The sample at a position that lies at most one step outside the frame,
/// clamped to the frame's edge.
fn sample(mosaic: &[u16], width: u32, height: u32, x: i64, y: i64) -> (value: u16)
    requires
        mosaic@.len() == width * height,
        width > 0,
        height > 0,
        -1 <= x <= width,
        -1 <= y <= height,
    ensures
        value == sample_at(mosaic@, width as int, height as int, x as int, y as int),
{
    let cx: i64 = if x < 0 { 0 } else if x > width as i64 - 1 { width as i64 - 1 } else { x };
    let cy: i64 = if y < 0 { 0 } else if y > height as i64 - 1 { height as i64 - 1 } else { y };
    proof {
        assert(0 <= cy * width + cx < width * height) by (nonlinear_arith)
            requires
                0 <= cx < width,
                0 <= cy < height,
        ;
        assert(cy * width <= u32::MAX * u32::MAX) by (nonlinear_arith)
            requires
                0 <= cy <= u32::MAX,
                0 <= width <= u32::MAX,
        ;
    }
    let index: u64 = (cy as u64) * (width as u64) + (cx as u64);
    mosaic[index as usize]
}

/// The colour that the shader reconstructs at column `x` of row `y`, as
/// sensor samples. `None` where the mosaic does not fill a frame of
/// `width` by `height`, or the position lies outside it.
pub fn debayer(mosaic: &[u16], width: u32, height: u32, x: u32, y: u32) -> (rgb: Option<RawRgb>)
    ensures
        rgb is Some <==> is_in_frame(mosaic@, width, height, x, y),
        rgb matches Some(c) ==> c == debayer_spec(
            mosaic@,
            width as int,
            height as int,
            x as int,
            y as int,
        ),
{
    proof {
        assert(0 <= width * height <= u32::MAX * u32::MAX) by (nonlinear_arith)
            requires
                0 <= width <= u32::MAX,
                0 <= height <= u32::MAX,
        ;
    }
    let samples: u64 = (width as u64) * (height as u64);
    if mosaic.len() as u128 != samples as u128 || x >= width || y >= height {
        return None;
    }
    let (xi, yi) = (x as i64, y as i64);
    let here = sample(mosaic, width, height, xi, yi);
    let rgb = if y % 2 == 0 {
        if x % 2 == 0 {
            RawRgb {
                r: here,
                g: sample(mosaic, width, height, xi + 1, yi),
                b: sample(mosaic, width, height, xi + 1, yi + 1),
            }
        } else {
            RawRgb {
                r: sample(mosaic, width, height, xi - 1, yi),
                g: here,
                b: sample(mosaic, width, height, xi, yi + 1),
            }
        }
    } else {
        if x % 2 == 0 {
            RawRgb {
                r: sample(mosaic, width, height, xi, yi - 1),
                g: here,
                b: sample(mosaic, width, height, xi + 1, yi),
            }
        } else {
            RawRgb {
                r: sample(mosaic, width, height, xi - 1, yi - 1),
                g: sample(mosaic, width, height, xi - 1, yi),
                b: here,
            }
        }
    };
    Some(rgb)
}

/// The sample that a mosaic of one repeated cell holds at a position: `r`
/// at the top left of each cell, `g` at the top right and bottom left, `b`
/// at the bottom right.
pub open spec fn cell_sample(r: u16, g: u16, b: u16, x: int, y: int) -> u16 {
    if y % 2 == 0 {
        if x % 2 == 0 {
            r
        } else {
            g
        }
    } else {
        if x % 2 == 0 {
            g
        } else {
            b
        }
    }
}

/// The mosaic repeats the cell of `r`, `g` and `b` over the frame.
pub open spec fn is_tiled(mosaic: Seq<u16>, width: int, height: int, r: u16, g: u16, b: u16) -> bool {
    &&& mosaic.len() == width * height
    &&& forall|x: int, y: int|
        0 <= x < width && 0 <= y < height ==> mosaic[#[trigger] (y * width + x)] == cell_sample(
            r,
            g,
            b,
            x,
            y,
        )
}

/// A position of the frame has its sample in the mosaic.
proof fn lemma_index_in_frame(width: int, height: int, x: int, y: int)
    requires
        0 <= x < width,
        0 <= y < height,
    ensures
        0 <= y * width + x < width * height,
{
    assert(0 <= y * width + x < width * height) by (nonlinear_arith)
        requires
            0 <= x < width,
            0 <= y < height,
    ;
}

/// A mosaic that repeats one cell over a frame of whole cells debayers to
/// one colour, the cell's, at every position of the frame.
pub proof fn lemma_tiled_mosaic(
    mosaic: Seq<u16>,
    width: int,
    height: int,
    r: u16,
    g: u16,
    b: u16,
    x: int,
    y: int,
)
    requires
        0 < width && width % 2 == 0,
        0 < height && height % 2 == 0,
        is_tiled(mosaic, width, height, r, g, b),
        0 <= x < width,
        0 <= y < height,
    ensures
        debayer_spec(mosaic, width, height, x, y) == (RawRgb { r, g, b }),
{
    let at = |dx: int, dy: int| (y + dy) * width + (x + dx);
    lemma_index_in_frame(width, height, x, y);
    assert(mosaic[at(0, 0)] == cell_sample(r, g, b, x, y));
    if y % 2 == 0 {
        lemma_index_in_frame(width, height, x, y + 1);
        if x % 2 == 0 {
            lemma_index_in_frame(width, height, x + 1, y);
            lemma_index_in_frame(width, height, x + 1, y + 1);
            assert(mosaic[at(1, 0)] == cell_sample(r, g, b, x + 1, y));
            assert(mosaic[at(1, 1)] == cell_sample(r, g, b, x + 1, y + 1));
        } else {
            lemma_index_in_frame(width, height, x - 1, y);
            assert(mosaic[at(-1, 0)] == cell_sample(r, g, b, x - 1, y));
            assert(mosaic[at(0, 1)] == cell_sample(r, g, b, x, y + 1));
        }
    } else {
        lemma_index_in_frame(width, height, x, y - 1);
        if x % 2 == 0 {
            lemma_index_in_frame(width, height, x + 1, y);
            assert(mosaic[at(0, -1)] == cell_sample(r, g, b, x, y - 1));
            assert(mosaic[at(1, 0)] == cell_sample(r, g, b, x + 1, y));
        } else {
            lemma_index_in_frame(width, height, x - 1, y);
            lemma_index_in_frame(width, height, x - 1, y - 1);
            assert(mosaic[at(-1, -1)] == cell_sample(r, g, b, x - 1, y - 1));
            assert(mosaic[at(-1, 0)] == cell_sample(r, g, b, x - 1, y));
        }
    }
}

/// A mosaic that holds the same sample everywhere debayers to that
/// sample in all three channels, at every position of a frame of any
/// size.
pub proof fn lemma_uniform_mosaic(mosaic: Seq<u16>, width: int, height: int, x: int, y: int, v: u16)
    requires
        0 < width,
        0 < height,
        mosaic.len() == width * height,
        forall|i: int| 0 <= i < mosaic.len() ==> mosaic[i] == v,
        0 <= x < width,
        0 <= y < height,
    ensures
        debayer_spec(mosaic, width, height, x, y) == (RawRgb { r: v, g: v, b: v }),
{
    assert forall|dx: int, dy: int| -1 <= dx <= 1 && -1 <= dy <= 1 implies sample_at(
        mosaic,
        width,
        height,
        #[trigger] (x + dx),
        #[trigger] (y + dy),
    ) == v by {
        lemma_index_in_frame(
            width,
            height,
            clamp(x + dx, 0, width - 1),
            clamp(y + dy, 0, height - 1),
        );
    }
    assert(sample_at(mosaic, width, height, x + 0, y + 0) == v);
    assert(sample_at(mosaic, width, height, x + 1, y + 0) == v);
    assert(sample_at(mosaic, width, height, x + 1, y + 1) == v);
    assert(sample_at(mosaic, width, height, x + (-1), y + 0) == v);
    assert(sample_at(mosaic, width, height, x + 0, y + 1) == v);
    assert(sample_at(mosaic, width, height, x + 0, y + (-1)) == v);
    assert(sample_at(mosaic, width, height, x + (-1), y + (-1)) == v);
}

} // verus!
