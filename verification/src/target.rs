//! Render targets and the layout of their read-back buffers.
//!
//! One frame is rendered at two sizes from the same texture: a bounded
//! preview for interactive editing and the sensor's native size for export.
//! A rendered target is copied into a buffer whose rows are padded to the
//! copy alignment of the GPU; the padding is stripped on the host.

use vstd::prelude::*;
use vstd::arithmetic::div_mod::*;
use vstd::slice::slice_subrange;

verus! {

/// Widest preview that is rendered; wider frames are scaled down.
pub const MAX_PREVIEW_WIDTH: u32 = 2560;

/// Alignment, in bytes, of each row of a texture-to-buffer copy.
pub const ROW_ALIGNMENT: u32 = 256;

/// Bytes of one RGBA8 pixel.
pub const BYTES_PER_PIXEL: u32 = 4;

/// Size in pixels of the framebuffer that a render pass draws into.
#[derive(Clone, Copy, Debug, PartialEq, Eq, Structural)]
pub struct RenderTarget {
    pub width: u32,
    pub height: u32,
}

/// How a rendered target lies in the buffer it is copied to.
#[derive(Clone, Copy, Debug, PartialEq, Eq, Structural)]
pub struct ReadbackLayout {
    /// Bytes of one row of pixels.
    pub unpadded_bytes_per_row: u32,
    /// Distance in bytes from one row's start to the next.
    pub padded_bytes_per_row: u32,
    /// Number of rows.
    pub rows: u32,
    /// Size in bytes of the whole buffer.
    pub buffer_size: u64,
}

/// `bytes` rounded up to the next multiple of the row alignment.
pub open spec fn padded(bytes: int) -> int {
    (bytes + ROW_ALIGNMENT - 1) / (ROW_ALIGNMENT as int) * ROW_ALIGNMENT
}

/// The tightly packed rows of a padded buffer: `rows` rows of `row` bytes,
/// row `y` taken from offset `y * stride` of `mapped`.
pub open spec fn packed_rows(mapped: Seq<u8>, row: int, stride: int, rows: int) -> Seq<u8> {
    Seq::new((row * rows) as nat, |i: int| mapped[(i / row) * stride + i % row])
}

/// Height of a `width` by `height` frame scaled to `preview_width` columns,
/// rounded down; a frame that keeps its width keeps its height.
pub open spec fn scaled_height(width: int, height: int, preview_width: int) -> int {
    if preview_width == width {
        height
    } else {
        preview_width * height / width
    }
}

/// The preview keeps the frame's aspect ratio as far as whole pixels can:
/// its height is the largest for which the preview is not taller, for its
/// width, than the frame. It is never larger than the frame, nor wider than
/// [`MAX_PREVIEW_WIDTH`].
pub proof fn lemma_preview_aspect(width: u32, height: u32)
    requires
        width > 0,
    ensures
        ({
            let t = RenderTarget::preview_of(width, height);
            &&& t.width <= MAX_PREVIEW_WIDTH
            &&& t.width <= width
            &&& t.height <= height
            &&& t.height * width <= t.width * height < (t.height + 1) * width
        }),
{
    let w = if width <= MAX_PREVIEW_WIDTH { width } else { MAX_PREVIEW_WIDTH };
    let (wi, hi, fi) = (w as int, height as int, width as int);
    if w == width {
        assert(hi * fi <= wi * hi < (hi + 1) * fi) by (nonlinear_arith)
            requires
                wi == fi,
                fi > 0,
                hi >= 0,
        ;
    } else {
        let q = wi * hi / fi;
        lemma_fundamental_div_mod(wi * hi, fi);
        assert(0 <= wi * hi <= fi * hi) by (nonlinear_arith)
            requires
                0 <= wi <= fi,
                0 <= hi,
        ;
        lemma_div_is_ordered(wi * hi, fi * hi, fi);
        lemma_div_multiples_vanish(hi, fi);
        assert(fi * hi == hi * fi) by (nonlinear_arith);
        lemma_div_pos_is_pos(wi * hi, fi);
        assert(q * fi <= wi * hi < (q + 1) * fi) by (nonlinear_arith)
            requires
                wi * hi == fi * q + (wi * hi) % fi,
                0 <= (wi * hi) % fi < fi,
        ;
    }
}

/// Rounding up to the alignment yields the least multiple that is not smaller.
pub proof fn lemma_padded(bytes: int)
    requires
        0 <= bytes,
    ensures
        padded(bytes) % (ROW_ALIGNMENT as int) == 0,
        bytes <= padded(bytes) < bytes + ROW_ALIGNMENT,
        bytes % (ROW_ALIGNMENT as int) == 0 ==> padded(bytes) == bytes,
{
    let q = (bytes + 255) / 256;
    lemma_fundamental_div_mod(bytes + 255, 256);
    lemma_mod_multiples_basic(q, 256);
    if bytes % 256 == 0 {
        lemma_fundamental_div_mod(bytes, 256);
        let k = bytes / 256;
        assert(bytes + 255 == 256 * k + 255);
        lemma_fundamental_div_mod_converse(bytes + 255, 256, k, 255);
    }
}

/// Packing drops exactly the padding: byte `x` of row `y` of the packed
/// frame is byte `x` of row `y` of the padded buffer, and nothing else is
/// in the frame.
pub proof fn lemma_packed_rows(mapped: Seq<u8>, row: int, stride: int, rows: int, x: int, y: int)
    requires
        0 <= x < row,
        0 <= y < rows,
    ensures
        packed_rows(mapped, row, stride, rows).len() == row * rows,
        0 <= y * row + x < row * rows,
        packed_rows(mapped, row, stride, rows)[y * row + x] == mapped[y * stride + x],
{
    assert(0 <= y * row + x < row * rows) by (nonlinear_arith)
        requires 0 <= x < row, 0 <= y < rows;
    lemma_fundamental_div_mod_converse(y * row + x, row, y, x);
}

impl RenderTarget {
    /// Bytes of one row of pixels.
    pub open spec fn row_bytes(&self) -> int {
        BYTES_PER_PIXEL * self.width
    }

    /// Bytes from one row's start to the next in the read-back buffer.
    pub open spec fn stride(&self) -> int {
        padded(self.row_bytes())
    }

    /// Size of the read-back buffer.
    pub open spec fn padded_len(&self) -> int {
        self.stride() * self.height
    }

    /// Size of the frame once the padding is gone.
    pub open spec fn packed_len(&self) -> int {
        self.row_bytes() * self.height
    }

    /// The target holds no pixel.
    pub open spec fn is_empty_spec(&self) -> bool {
        self.width == 0 || self.height == 0
    }

    /// Number of pixels of the target.
    pub open spec fn pixels(&self) -> int {
        self.width * self.height
    }

    /// The preview target of a `width` by `height` frame.
    pub open spec fn preview_of(width: u32, height: u32) -> RenderTarget {
        let w = if width <= MAX_PREVIEW_WIDTH { width } else { MAX_PREVIEW_WIDTH };
        RenderTarget { width: w, height: scaled_height(width as int, height as int, w as int) as u32 }
    }

    /// True when the target holds no pixel.
    #[verifier::when_used_as_spec(is_empty_spec)]
    pub fn is_empty(&self) -> (empty: bool)
        ensures
            empty == self.is_empty_spec(),
    {
        self.width == 0 || self.height == 0
    }

    /// The target at the sensor's native size, for export.
    pub fn full(width: u32, height: u32) -> (t: RenderTarget)
        ensures
            t == (RenderTarget { width, height }),
    {
        RenderTarget { width, height }
    }

    /// The preview target: as wide as the frame but no wider than
    /// [`MAX_PREVIEW_WIDTH`], and as high as keeps the aspect ratio, rounded
    /// down. A frame that is narrow enough is previewed at its own size.
    pub fn preview(width: u32, height: u32) -> (t: RenderTarget)
        ensures
            t == Self::preview_of(width, height),
            t.width <= width && t.width <= MAX_PREVIEW_WIDTH,
            t.height <= height,
            width <= MAX_PREVIEW_WIDTH ==> t == (RenderTarget { width, height }),
    {
        if width <= MAX_PREVIEW_WIDTH {
            return RenderTarget { width, height };
        }
        let w: u32 = MAX_PREVIEW_WIDTH;
        proof {
            let (wi, hi, fi) = (w as int, height as int, width as int);
            assert(0 <= wi * hi <= fi * hi <= u32::MAX * u32::MAX) by (nonlinear_arith)
                requires 0 <= wi <= fi <= u32::MAX, 0 <= hi <= u32::MAX;
            lemma_div_is_ordered(wi * hi, fi * hi, fi);
            lemma_div_multiples_vanish(hi, fi);
            assert(fi * hi == hi * fi) by (nonlinear_arith);
            lemma_div_pos_is_pos(wi * hi, fi);
        }
        let scaled: u64 = (w as u64) * (height as u64) / (width as u64);
        RenderTarget { width: w, height: scaled as u32 }
    }

    /// The layout of the buffer that this target is read back through.
    /// `None` when the target holds no pixel, so that nothing can be
    /// rendered into it, or when a padded row would not fit the 32 bits
    /// that a copy command has for it.
    pub fn readback_layout(&self) -> (layout: Option<ReadbackLayout>)
        ensures
            layout is Some <==> !self.is_empty() && self.stride() <= u32::MAX,
            layout matches Some(l) ==> {
                &&& l.unpadded_bytes_per_row == self.row_bytes()
                &&& l.padded_bytes_per_row == self.stride()
                &&& l.rows == self.height
                &&& l.buffer_size == self.padded_len()
            },
    {
        if self.is_empty() {
            return None;
        }
        let row: u64 = 4 * (self.width as u64);
        let upper: u64 = row + 255;
        let stride: u64 = upper & !255u64;
        proof {
            assert(upper & !255u64 == upper / 256 * 256) by (bit_vector)
                requires upper <= 0x4_0000_00ffu64;
            lemma_padded(row as int);
        }
        if stride > u32::MAX as u64 {
            return None;
        }
        proof {
            assert(stride * self.height <= u32::MAX * u32::MAX) by (nonlinear_arith)
                requires 0 <= stride <= u32::MAX, 0 <= self.height <= u32::MAX;
        }
        Some(ReadbackLayout {
            unpadded_bytes_per_row: row as u32,
            padded_bytes_per_row: stride as u32,
            rows: self.height,
            buffer_size: stride * (self.height as u64),
        })
    }

    /// Strips the row padding from a mapped read-back buffer, giving the
    /// frame as tightly packed RGBA8 rows. `None` when the buffer has not
    /// the size that the layout of this target prescribes.
    pub fn strip_padding(&self, mapped: &[u8]) -> (frame: Option<Vec<u8>>)
        ensures
            frame is Some <==> mapped@.len() == self.padded_len(),
            frame matches Some(f) ==> f@ == packed_rows(
                mapped@,
                self.row_bytes(),
                self.stride(),
                self.height as int,
            ),
            frame matches Some(f) ==> f@.len() == self.packed_len(),
    {
        let row: u64 = 4 * (self.width as u64);
        let upper: u64 = row + 255;
        let stride: u64 = upper & !255u64;
        proof {
            assert(upper & !255u64 == upper / 256 * 256) by (bit_vector)
                requires upper <= 0x4_0000_00ffu64;
            lemma_padded(row as int);
            assert(stride * self.height <= 0x4_0000_0100 * u32::MAX) by (nonlinear_arith)
                requires 0 <= stride <= 0x4_0000_0100, 0 <= self.height <= u32::MAX;
        }
        let total: u128 = (stride as u128) * (self.height as u128);
        if mapped.len() as u128 != total {
            return None;
        }
        let mut frame: Vec<u8> = Vec::new();
        if self.height == 0 {
            assert(frame@ =~= packed_rows(mapped@, row as int, stride as int, 0));
            return Some(frame);
        }
        proof {
            assert(stride <= stride * self.height) by (nonlinear_arith)
                requires 0 <= stride, 1 <= self.height;
        }
        let row_len: usize = row as usize;
        let stride_len: usize = stride as usize;
        let rows: usize = self.height as usize;
        let mut y: usize = 0;
        while y < rows
            invariant
                y <= rows,
                rows == self.height,
                row_len == self.row_bytes(),
                stride_len == self.stride(),
                row_len <= stride_len,
                mapped@.len() == stride_len * rows,
                mapped@.len() <= usize::MAX,
                frame@ == packed_rows(mapped@, row_len as int, stride_len as int, y as int),
            decreases rows - y,
        {
            proof {
                assert(0 <= y * stride_len && y * stride_len + stride_len <= stride_len * rows)
                    by (nonlinear_arith)
                    requires 0 <= y < rows, 0 <= stride_len;
            }
            let start: usize = y * stride_len;
            let end: usize = start + row_len;
            let ghost before = frame@;
            frame.extend_from_slice(slice_subrange(mapped, start, end));
            proof {
                let after = packed_rows(mapped@, row_len as int, stride_len as int, y + 1);
                assert(row_len * (y + 1) == row_len * y + row_len) by (nonlinear_arith);
                assert(frame@.len() == after.len());
                assert forall|i: int| 0 <= i < frame@.len() implies frame@[i] == after[i] by {
                    if i < before.len() {
                        assert(frame@[i] == before[i]);
                    } else {
                        let x = i - row_len * y;
                        assert(i == y * row_len + x) by (nonlinear_arith)
                            requires x == i - row_len * y;
                        lemma_fundamental_div_mod_converse(i, row_len as int, y as int, x);
                    }
                }
                assert(frame@ =~= after);
            }
            y = y + 1;
        }
        Some(frame)
    }
}

} // verus!
