//! The host side of the render pipeline of one image.
//!
//! The GPU objects belong to whoever drives the device. What is kept here
//! is what the host decides: the two render targets, what is uploaded once
//! and what is rewritten on every edit, and how a rendered target comes
//! back as tightly packed pixels.

use vstd::prelude::*;
use vstd::string::*;
use crate::bytes::{is_memory_of, samples_as_bytes, samples_as_nats, words_as_nats};
use crate::edit::EditParams;
use crate::histogram::{
    bin_sum, calculate_histogram, is_channel_histogram, lemma_histogram_of_frame, pixel_count, BINS,
};
use crate::scalar::Scalar;
use crate::target::{packed_rows, RenderTarget};
use crate::uniform::{UniformBlock, UNIFORM_BYTES};

verus! {

/// Bytes of one sensor sample in the input texture.
pub const BYTES_PER_SAMPLE: u32 = 2;

/// Why a pipeline could not be constructed.
#[derive(Debug, Clone, PartialEq, Eq)]
pub enum PipelineError {
    /// The frame, or the preview of it, holds no pixel.
    EmptyFrame,
    /// A row of the mosaic is longer than a texture upload can describe.
    FrameTooWide,
    /// The preview holds more pixels than a histogram bin can count.
    PreviewTooLarge,
    /// The mosaic does not hold one sample for each pixel of the frame.
    FrameSize,
    /// No suitable GPU adapter was found.
    AdapterNotFound,
    /// The adapter did not hand out a device; the text is the driver's.
    DeviceCreation(String),
}

impl PipelineError {
    /// The error in words.
    pub open spec fn message_spec(&self) -> Seq<char> {
        match self {
            PipelineError::EmptyFrame => "The frame or its preview holds no pixel"@,
            PipelineError::FrameTooWide => "The frame is too wide for a texture upload"@,
            PipelineError::PreviewTooLarge => "The preview holds too many pixels to count"@,
            PipelineError::FrameSize => "The mosaic does not match the size of the frame"@,
            PipelineError::AdapterNotFound => "Failed to find suitable GPU adapter"@,
            PipelineError::DeviceCreation(reason) => "Failed to create device: "@ + reason@,
        }
    }

    /// The error in words, as the editor shows it.
    pub fn message(&self) -> (text: String)
        ensures
            text@ == self.message_spec(),
    {
        match self {
            PipelineError::EmptyFrame => String::from_str("The frame or its preview holds no pixel"),
            PipelineError::FrameTooWide => String::from_str(
                "The frame is too wide for a texture upload",
            ),
            PipelineError::PreviewTooLarge => String::from_str(
                "The preview holds too many pixels to count",
            ),
            PipelineError::FrameSize => String::from_str(
                "The mosaic does not match the size of the frame",
            ),
            PipelineError::AdapterNotFound => String::from_str("Failed to find suitable GPU adapter"),
            PipelineError::DeviceCreation(reason) => {
                let mut text = String::from_str("Failed to create device: ");
                text.append(reason.as_str());
                text
            },
        }
    }
}

/// Why no pipeline can be built for a mosaic of `samples` samples that is
/// to fill a frame of `width` by `height`; `None` where one can. The size
/// of the frame is looked at first, the mosaic last.
pub open spec fn frame_error(samples: int, width: u32, height: u32) -> Option<PipelineError> {
    let preview = RenderTarget::preview_of(width, height);
    if width == 0 || height == 0 || preview.is_empty() {
        Some(PipelineError::EmptyFrame)
    } else if BYTES_PER_SAMPLE * width > u32::MAX {
        Some(PipelineError::FrameTooWide)
    } else if preview.pixels() > u32::MAX {
        Some(PipelineError::PreviewTooLarge)
    } else if samples != width * height {
        Some(PipelineError::FrameSize)
    } else {
        None
    }
}

/// What is written into the input texture, once for each image: the
/// sensor's samples as they are, with the layout of the upload.
#[derive(Debug, Clone, Copy)]
pub struct TextureUpload<'a> {
    /// The samples' bytes.
    pub bytes: &'a [u8],
    /// Bytes of one row of the mosaic.
    pub bytes_per_row: u32,
    /// Rows of the mosaic.
    pub rows_per_image: u32,
}

/// What the GPU objects of a new pipeline are filled with.
#[derive(Debug, Clone)]
pub struct PipelineSetup<'a> {
    /// The upload into the input texture. It is made once: no edit touches
    /// the texture again.
    pub texture: TextureUpload<'a>,
    /// The first contents of the uniform buffer.
    pub uniform: Vec<u8>,
}

/// The pipeline of one image: its frame's size, the preview's size, and the
/// colour metadata that every uniform block of this image carries.
#[derive(Debug, Clone)]
pub struct RenderPipeline {
    /// Width of the frame.
    pub width: u32,
    /// Height of the frame.
    pub height: u32,
    /// Width of the preview.
    pub preview_width: u32,
    /// Height of the preview.
    pub preview_height: u32,
    /// The image that this pipeline renders.
    pub image_id: i64,
    /// White-balance multipliers of the frame: red, green, blue, second green.
    pub wb_multipliers: [Scalar; 4],
    /// Camera-to-display matrix of the frame, row by row.
    pub color_matrix: [Scalar; 9],
}

impl RenderPipeline {
    /// The target at the frame's own size.
    pub open spec fn full_target_spec(&self) -> RenderTarget {
        RenderTarget { width: self.width, height: self.height }
    }

    /// The preview target.
    pub open spec fn preview_target_spec(&self) -> RenderTarget {
        RenderTarget { width: self.preview_width, height: self.preview_height }
    }

    /// The pipeline is one that [`RenderPipeline::new`] builds: the preview
    /// has the size that the frame's size prescribes, both targets hold
    /// pixels, a row of the mosaic can be uploaded, and the preview's
    /// pixels can be counted in a histogram.
    pub open spec fn well_formed(&self) -> bool {
        &&& self.preview_target_spec() == RenderTarget::preview_of(self.width, self.height)
        &&& frame_error(self.width * self.height, self.width, self.height) is None
    }

    /// The uniform block of this image for `params`.
    pub open spec fn uniform_block(&self, params: EditParams) -> UniformBlock {
        UniformBlock {
            params,
            wb_multipliers: self.wb_multipliers,
            color_matrix: self.color_matrix,
        }
    }

    /// A pipeline for the frame `raw_data` of `width` by `height` samples,
    /// with what its GPU objects are to be filled with: the samples, bit
    /// for bit and row after row, for the input texture, and the uniform
    /// block of `params` for the uniform buffer. Both render targets are
    /// fixed here.
    ///
    /// Fails, in this order, when the frame or its preview holds no pixel,
    /// when a row of the mosaic takes more bytes than an upload can
    /// describe, when the preview holds more pixels than a histogram can
    /// count, and when the mosaic has not one sample for each pixel.
    pub fn new<'a>(
        image_id: i64,
        raw_data: &'a [u16],
        width: u32,
        height: u32,
        params: &EditParams,
        wb_multipliers: [Scalar; 4],
        color_matrix: [Scalar; 9],
    ) -> (result: Result<(RenderPipeline, PipelineSetup<'a>), PipelineError>)
        ensures
            match frame_error(raw_data@.len() as int, width, height) {
                Some(error) => result == Err::<(RenderPipeline, PipelineSetup<'a>), PipelineError>(
                    error,
                ),
                None => result is Ok,
            },
            result matches Ok((p, setup)) ==> {
                &&& p.well_formed()
                &&& p.image_id == image_id
                &&& p.width == width
                &&& p.height == height
                &&& p.wb_multipliers == wb_multipliers
                &&& p.color_matrix == color_matrix
                &&& is_memory_of(
                    setup.texture.bytes@,
                    samples_as_nats(raw_data@),
                    BYTES_PER_SAMPLE as nat,
                )
                &&& setup.texture.bytes_per_row == BYTES_PER_SAMPLE * width
                &&& setup.texture.rows_per_image == height
                &&& is_memory_of(setup.uniform@, words_as_nats(p.uniform_block(*params).words()), 4)
                &&& setup.uniform@.len() == UNIFORM_BYTES
            },
    {
        let preview = RenderTarget::preview(width, height);
        if width == 0 || height == 0 || preview.is_empty() {
            return Err(PipelineError::EmptyFrame);
        }
        if width > u32::MAX / 2 {
            return Err(PipelineError::FrameTooWide);
        }
        proof {
            assert(0 <= preview.width * preview.height <= u32::MAX * u32::MAX) by (nonlinear_arith)
                requires
                    0 <= preview.width <= u32::MAX,
                    0 <= preview.height <= u32::MAX,
            ;
            assert(0 <= width * height <= u32::MAX * u32::MAX) by (nonlinear_arith)
                requires
                    0 <= width <= u32::MAX,
                    0 <= height <= u32::MAX,
            ;
        }
        if (preview.width as u64) * (preview.height as u64) > u32::MAX as u64 {
            return Err(PipelineError::PreviewTooLarge);
        }
        let samples: u64 = (width as u64) * (height as u64);
        if raw_data.len() as u128 != samples as u128 {
            return Err(PipelineError::FrameSize);
        }
        let pipeline = RenderPipeline {
            width,
            height,
            preview_width: preview.width,
            preview_height: preview.height,
            image_id,
            wb_multipliers,
            color_matrix,
        };
        let setup = PipelineSetup {
            texture: TextureUpload {
                bytes: samples_as_bytes(raw_data),
                bytes_per_row: 2 * width,
                rows_per_image: height,
            },
            uniform: pipeline.update_uniforms(params),
        };
        Ok((pipeline, setup))
    }

    /// Size of the frame.
    pub fn dimensions(&self) -> (size: (u32, u32))
        ensures
            size == (self.width, self.height),
    {
        (self.width, self.height)
    }

    /// The target at the frame's own size, for export.
    #[verifier::when_used_as_spec(full_target_spec)]
    pub fn full_target(&self) -> (t: RenderTarget)
        ensures
            t == self.full_target_spec(),
    {
        RenderTarget::full(self.width, self.height)
    }

    /// The bounded target for interactive editing.
    #[verifier::when_used_as_spec(preview_target_spec)]
    pub fn preview_target(&self) -> (t: RenderTarget)
        ensures
            t == self.preview_target_spec(),
    {
        RenderTarget { width: self.preview_width, height: self.preview_height }
    }

    /// The bytes to write into the uniform buffer for `params`. Only this
    /// small block changes when the user edits; the frame's colour metadata
    /// is carried over.
    pub fn update_uniforms(&self, params: &EditParams) -> (bytes: Vec<u8>)
        ensures
            is_memory_of(bytes@, words_as_nats(self.uniform_block(*params).words()), 4),
            bytes@.len() == UNIFORM_BYTES,
    {
        let block = UniformBlock::new(params, self.wb_multipliers, self.color_matrix);
        block.to_bytes()
    }

    /// The rendered preview as tightly packed RGBA8 rows, from the mapped
    /// read-back buffer of the preview target. `None` when the buffer has
    /// not the size that the target's layout prescribes.
    pub fn render_to_bytes(&self, mapped: &[u8]) -> (frame: Option<Vec<u8>>)
        ensures
            frame is Some <==> mapped@.len() == self.preview_target().padded_len(),
            frame matches Some(f) ==> f@ == packed_rows(
                mapped@,
                self.preview_target().row_bytes(),
                self.preview_target().stride(),
                self.preview_height as int,
            ),
            frame matches Some(f) ==> f@.len() == 4 * self.preview_width * self.preview_height,
            frame matches Some(f) ==> pixel_count(f@) == self.preview_width * self.preview_height,
    {
        let frame = self.preview_target().strip_padding(mapped);
        proof {
            assert(4 * self.preview_width * self.preview_height == (4 * self.preview_width)
                * self.preview_height) by (nonlinear_arith);
            assert(4 * self.preview_width * self.preview_height == 4 * (self.preview_width
                * self.preview_height)) by (nonlinear_arith);
        }
        frame
    }

    /// The frame rendered at its own size as tightly packed RGBA8 rows, from
    /// the mapped read-back buffer of the full target. `None` when the
    /// buffer has not the size that the target's layout prescribes.
    pub fn render_full_res_to_bytes(&self, mapped: &[u8]) -> (frame: Option<Vec<u8>>)
        ensures
            frame is Some <==> mapped@.len() == self.full_target().padded_len(),
            frame matches Some(f) ==> f@ == packed_rows(
                mapped@,
                self.full_target().row_bytes(),
                self.full_target().stride(),
                self.height as int,
            ),
            frame matches Some(f) ==> f@.len() == 4 * self.width * self.height,
            frame matches Some(f) ==> pixel_count(f@) == self.width * self.height,
    {
        let frame = self.full_target().strip_padding(mapped);
        proof {
            assert(4 * self.width * self.height == (4 * self.width) * self.height)
                by (nonlinear_arith);
            assert(4 * self.width * self.height == 4 * (self.width * self.height))
                by (nonlinear_arith);
        }
        frame
    }

    /// The red, green and blue histograms of a rendered frame.
    pub fn calculate_histogram(&self, rgba_bytes: &[u8]) -> (hist: [[u32; 256]; 3])
        requires
            pixel_count(rgba_bytes@) <= u32::MAX,
        ensures
            forall|c: int| 0 <= c < 3 ==> is_channel_histogram(#[trigger] hist[c]@, rgba_bytes@, c),
            forall|c: int|
                0 <= c < 3 ==> bin_sum(#[trigger] hist[c]@, BINS as nat) == pixel_count(
                    rgba_bytes@,
                ),
    {
        calculate_histogram(rgba_bytes)
    }
}

/// A rendered preview can always be counted: the preview of a pipeline
/// that [`RenderPipeline::new`] built has no more pixels than a histogram
/// bin can hold, whatever the frame's size and whatever the buffer holds.
pub proof fn lemma_preview_is_countable(pipeline: RenderPipeline, mapped: Seq<u8>)
    requires
        pipeline.well_formed(),
    ensures
        pixel_count(
            packed_rows(
                mapped,
                pipeline.preview_target().row_bytes(),
                pipeline.preview_target().stride(),
                pipeline.preview_height as int,
            ),
        ) == pipeline.preview_width * pipeline.preview_height,
        pipeline.preview_width * pipeline.preview_height <= u32::MAX,
{
    let (w, h) = (pipeline.preview_width as int, pipeline.preview_height as int);
    assert((4 * w) * h == 4 * (w * h)) by (nonlinear_arith);
    assert(0 <= w * h) by (nonlinear_arith)
        requires
            0 <= w,
            0 <= h,
    ;
}

/// Whatever a rendered preview holds, the bins of each channel of its
/// histogram add up to the number of pixels of the preview.
pub proof fn lemma_preview_histogram_total(
    pipeline: RenderPipeline,
    mapped: Seq<u8>,
    bins: Seq<u32>,
    channel: int,
)
    requires
        is_channel_histogram(
            bins,
            packed_rows(
                mapped,
                pipeline.preview_target().row_bytes(),
                pipeline.preview_target().stride(),
                pipeline.preview_height as int,
            ),
            channel,
        ),
    ensures
        bin_sum(bins, BINS as nat) == pipeline.preview_width * pipeline.preview_height,
{
    let frame = packed_rows(
        mapped,
        pipeline.preview_target().row_bytes(),
        pipeline.preview_target().stride(),
        pipeline.preview_height as int,
    );
    assert(frame.len() == 4 * (pipeline.preview_width as nat) * (pipeline.preview_height as nat))
        by (nonlinear_arith)
        requires
            frame.len() == (4 * pipeline.preview_width) * pipeline.preview_height,
    ;
    lemma_histogram_of_frame(
        bins,
        frame,
        channel,
        pipeline.preview_width as nat,
        pipeline.preview_height as nat,
    );
}

} // verus!
