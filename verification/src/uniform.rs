//! The uniform block that the fragment shader reads.
//!
//! The shader declares one struct of scalars and vectors; the host fills a
//! buffer that must match it byte for byte. Scalars take one 32-bit word;
//! a vector of three or four takes four words and starts at a multiple of
//! four words (16 bytes). The block is therefore laid out by hand here,
//! word by word, and the layout is part of the contract.

use vstd::prelude::*;
use vstd::slice::slice_to_vec;
use crate::bytes::{is_memory_of, words_as_bytes, words_as_nats};
use crate::edit::{EditParams, PARAM_COUNT};
use crate::scalar::Scalar;

verus! {

/// Words in the block.
pub const UNIFORM_WORDS: usize = 28;

/// Bytes in the block.
pub const UNIFORM_BYTES: usize = 112;

/// Word at which the white-balance vector starts.
pub const WHITE_BALANCE_WORD: usize = 12;

/// Word at which the first row of the colour matrix starts.
pub const MATRIX_WORD: usize = 16;

/// Words from one row of the colour matrix to the next: three values and
/// one word of padding.
pub const MATRIX_ROW_WORDS: usize = 4;

/// Everything the shader is told about one frame: the edit parameters, the
/// white-balance multipliers (red, green, blue, second green) and the
/// camera-to-display matrix, row by row.
#[derive(Clone, Copy, Debug)]
pub struct UniformBlock {
    pub params: EditParams,
    pub wb_multipliers: [Scalar; 4],
    pub color_matrix: [Scalar; 9],
}

impl UniformBlock {
    /// The word at index `i` of the block.
    pub open spec fn word(self, i: int) -> u32 {
        if i < PARAM_COUNT {
            self.params.fields()[i].bits
        } else if i < WHITE_BALANCE_WORD {
            0
        } else if i < MATRIX_WORD {
            self.wb_multipliers[i - WHITE_BALANCE_WORD].bits
        } else {
            let row = (i - MATRIX_WORD) / (MATRIX_ROW_WORDS as int);
            let column = (i - MATRIX_WORD) % (MATRIX_ROW_WORDS as int);
            if column < 3 {
                self.color_matrix[3 * row + column].bits
            } else {
                0
            }
        }
    }

    /// The block as the shader's struct lays it out.
    pub open spec fn words(self) -> Seq<u32> {
        Seq::new(UNIFORM_WORDS as nat, |i: int| self.word(i))
    }

    /// The block for `params`, with neutral white balance and the identity
    /// as colour matrix.
    pub fn from_params(params: &EditParams) -> (block: UniformBlock)
        ensures
            block.params == *params,
            forall|i: int| 0 <= i < 4 ==> block.wb_multipliers[i] == Scalar::one(),
            forall|r: int, c: int|
                0 <= r < 3 && 0 <= c < 3 ==> #[trigger] block.color_matrix[3 * r + c] == if r
                    == c {
                    Scalar::one()
                } else {
                    Scalar::zero()
                },
    {
        let one = Scalar::one();
        let zero = Scalar::zero();
        UniformBlock {
            params: *params,
            wb_multipliers: [one, one, one, one],
            color_matrix: [one, zero, zero, zero, one, zero, zero, zero, one],
        }
    }

    /// The block for `params` with a frame's colour metadata.
    pub fn new(params: &EditParams, wb_multipliers: [Scalar; 4], color_matrix: [Scalar; 9]) -> (block:
        UniformBlock)
        ensures
            block == (UniformBlock { params: *params, wb_multipliers, color_matrix }),
    {
        UniformBlock { params: *params, wb_multipliers, color_matrix }
    }

    /// Lays the block out as the shader's struct declares it.
    pub fn to_words(&self) -> (words: [u32; 28])
        ensures
            words@ == self.words(),
    {
        let p = &self.params;
        let wb = &self.wb_multipliers;
        let m = &self.color_matrix;
        let words: [u32; 28] = [
            p.exposure.bits,
            p.contrast.bits,
            p.highlights.bits,
            p.shadows.bits,
            p.whites.bits,
            p.blacks.bits,
            p.vibrance.bits,
            p.saturation.bits,
            p.temperature.bits,
            p.tint.bits,
            0,
            0,
            wb[0].bits,
            wb[1].bits,
            wb[2].bits,
            wb[3].bits,
            m[0].bits,
            m[1].bits,
            m[2].bits,
            0,
            m[3].bits,
            m[4].bits,
            m[5].bits,
            0,
            m[6].bits,
            m[7].bits,
            m[8].bits,
            0,
        ];
        assert(words@ =~= self.words());
        words
    }

    /// The bytes to write into the uniform buffer: the block's words as the
    /// machine holds them in memory.
    pub fn to_bytes(&self) -> (bytes: Vec<u8>)
        ensures
            is_memory_of(bytes@, words_as_nats(self.words()), 4),
            bytes@.len() == UNIFORM_BYTES,
    {
        let words = self.to_words();
        slice_to_vec(words_as_bytes(words.as_slice()))
    }
}

/// The block's layout agrees with the shader's struct: the ten parameters
/// come first in their declared order, two words of padding bring the
/// white-balance vector to byte 48, each row of the matrix starts at a
/// multiple of 16 bytes (64, 80, 96) and is followed by one word of padding,
/// and all padding is zero.
pub proof fn lemma_uniform_layout(block: UniformBlock)
    ensures
        block.words().len() == UNIFORM_WORDS,
        4 * UNIFORM_WORDS == UNIFORM_BYTES,
        (4 * WHITE_BALANCE_WORD) % 16 == 0 && (4 * MATRIX_WORD) % 16 == 0 && (4 * MATRIX_ROW_WORDS)
            % 16 == 0 && UNIFORM_BYTES % 16 == 0,
        forall|i: int| 0 <= i < PARAM_COUNT ==> #[trigger] block.words()[i] == block.params.fields()[i].bits,
        block.words()[10] == 0 && block.words()[11] == 0,
        forall|i: int|
            0 <= i < 4 ==> #[trigger] block.words()[WHITE_BALANCE_WORD + i]
                == block.wb_multipliers[i].bits,
        forall|r: int, c: int|
            0 <= r < 3 && 0 <= c < 3 ==> #[trigger] block.words()[MATRIX_WORD + MATRIX_ROW_WORDS * r
                + c] == block.color_matrix[3 * r + c].bits,
        forall|r: int| 0 <= r < 3 ==> #[trigger] block.words()[MATRIX_WORD + MATRIX_ROW_WORDS * r + 3] == 0,
{
    assert forall|r: int, c: int| 0 <= r < 3 && 0 <= c < 3 implies #[trigger] block.words()[MATRIX_WORD
        + MATRIX_ROW_WORDS * r + c] == block.color_matrix[3 * r + c].bits by {
        assert(block.words()[16 + 4 * r + c] == block.word(16 + 4 * r + c));
        assert((4 * r + c) / 4 == r && (4 * r + c) % 4 == c);
    }
    assert forall|r: int| 0 <= r < 3 implies #[trigger] block.words()[MATRIX_WORD + MATRIX_ROW_WORDS
        * r + 3] == 0 by {
        assert(block.words()[16 + 4 * r + 3] == block.word(16 + 4 * r + 3));
        assert((4 * r + 3) / 4 == r && (4 * r + 3) % 4 == 3);
    }
}

} // verus!
