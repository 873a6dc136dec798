//! The uniform block: the parameters of one draw, in the fixed layout that
//! the shading program reads.
//!
//! The block is 144 bytes long: two 4x4 matrices of 32-bit floats (64 bytes
//! each, column by column), then the time as a 32-bit float, the style
//! selector, the instance flag and four bytes of padding that keep the length
//! a multiple of 16. Floats are held as their IEEE 754 bit patterns, which is
//! what goes into the buffer.

use vstd::prelude::*;
use crate::wire::{cast_words, native_encoding};

verus! {

/// Length of the block in bytes.
pub const UNIFORM_BLOCK_BYTES: usize = 144;

/// Length of the block in 32-bit words.
pub const UNIFORM_BLOCK_WORDS: usize = 36;

/// Byte offset of the view-projection matrix.
pub const VIEW_PROJECTION_OFFSET: usize = 0;

/// Byte offset of the model matrix.
pub const MODEL_OFFSET: usize = 64;

/// Byte offset of the time.
pub const TIME_OFFSET: usize = 128;

/// Byte offset of the style selector.
pub const STYLE_ID_OFFSET: usize = 132;

/// Byte offset of the instance flag.
pub const INSTANCE_FLAG_OFFSET: usize = 136;

/// Byte offset of the padding.
pub const PADDING_OFFSET: usize = 140;

/// Bit pattern of the 32-bit float one.
pub const ONE_BITS: u32 = 0x3F80_0000;

/// Instance flag of the primary body.
pub const PRIMARY_INSTANCE: u32 = 0;

/// Instance flag of the secondary body.
pub const SECONDARY_INSTANCE: u32 = 1;

/// The parameters of one draw.
#[derive(Clone, Copy, Debug, PartialEq, Eq)]
pub struct UniformBlock {
    /// View-projection matrix, column by column.
    pub view_projection: [u32; 16],
    /// Model matrix, column by column.
    pub model: [u32; 16],
    /// Elapsed seconds.
    pub time: u32,
    /// Shading variant.
    pub style_id: u32,
    /// 0 for the primary body, 1 for the secondary one.
    pub instance_flag: u32,
    /// Unused; keeps the block 16-byte aligned.
    pub padding: u32,
}

/// The bit patterns of the 4x4 identity matrix.
pub open spec fn identity_words() -> Seq<u32> {
    Seq::new(16, |i: int| if i % 5 == 0 { ONE_BITS } else { 0u32 })
}

/// The 4x4 identity matrix.
pub fn identity_matrix() -> (m: [u32; 16])
    ensures
        m@ == identity_words(),
{
    let m: [u32; 16] = [
        ONE_BITS, 0, 0, 0,
        0, ONE_BITS, 0, 0,
        0, 0, ONE_BITS, 0,
        0, 0, 0, ONE_BITS,
    ];
    assert(m@ =~= identity_words());
    m
}

impl UniformBlock {
    /// The block as the sequence of its 36 words, in buffer order.
    pub open spec fn words(&self) -> Seq<u32> {
        self.view_projection@ + self.model@ + seq![
            self.time,
            self.style_id,
            self.instance_flag,
            self.padding,
        ]
    }

    /// The word that the block holds at a byte offset (a multiple of four
    /// below 144).
    pub open spec fn word_at(&self, offset: int) -> u32 {
        self.words()[offset / 4]
    }

    /// The block every run starts from: both matrices the identity, time
    /// zero, style 0, primary body.
    pub fn new() -> (block: UniformBlock)
        ensures
            block.view_projection@ == identity_words(),
            block.model@ == identity_words(),
            block.time == 0,
            block.style_id == 0,
            block.instance_flag == PRIMARY_INSTANCE,
            block.padding == 0,
    {
        UniformBlock {
            view_projection: identity_matrix(),
            model: identity_matrix(),
            time: 0,
            style_id: 0,
            instance_flag: PRIMARY_INSTANCE,
            padding: 0,
        }
    }

    /// The same block for another body: only the instance flag differs.
    pub fn with_instance(&self, instance_flag: u32) -> (block: UniformBlock)
        ensures
            block == (UniformBlock { instance_flag, ..*self }),
    {
        UniformBlock {
            view_projection: self.view_projection,
            model: self.model,
            time: self.time,
            style_id: self.style_id,
            instance_flag,
            padding: self.padding,
        }
    }

    /// The words of the block in buffer order.
    pub fn to_words(&self) -> (words: Vec<u32>)
        ensures
            words@ == self.words(),
            words@.len() == UNIFORM_BLOCK_WORDS,
    {
        let mut words: Vec<u32> = Vec::new();
        let mut i: usize = 0;
        while i < 16
            invariant
                i <= 16,
                words@ == self.view_projection@.take(i as int),
            decreases 16 - i,
        {
            words.push(self.view_projection[i]);
            i = i + 1;
        }
        let mut j: usize = 0;
        while j < 16
            invariant
                j <= 16,
                words@ == self.view_projection@ + self.model@.take(j as int),
            decreases 16 - j,
        {
            words.push(self.model[j]);
            j = j + 1;
        }
        words.push(self.time);
        words.push(self.style_id);
        words.push(self.instance_flag);
        words.push(self.padding);
        assert(words@ =~= self.words());
        words
    }

    /// The 144 bytes of the block as they go into the uniform buffer.
    pub fn to_bytes(&self) -> (bytes: Vec<u8>)
        ensures
            bytes@.len() == UNIFORM_BLOCK_BYTES,
            native_encoding(self.words(), bytes@),
    {
        let words = self.to_words();
        cast_words(&words)
    }
}

/// Where each field lies: the matrices fill the first 128 bytes, the four
/// scalars follow in the order time, style, instance flag, padding.
pub proof fn lemma_field_offsets(block: UniformBlock)
    ensures
        block.words().len() * 4 == UNIFORM_BLOCK_BYTES,
        UNIFORM_BLOCK_BYTES % 16 == 0,
        forall|i: int|
            0 <= i < 16 ==> block.word_at(VIEW_PROJECTION_OFFSET + 4 * i)
                == #[trigger] block.view_projection@[i],
        forall|i: int| 0 <= i < 16 ==> block.word_at(MODEL_OFFSET + 4 * i) == #[trigger] block.model@[i],
        block.word_at(TIME_OFFSET as int) == block.time,
        block.word_at(STYLE_ID_OFFSET as int) == block.style_id,
        block.word_at(INSTANCE_FLAG_OFFSET as int) == block.instance_flag,
        block.word_at(PADDING_OFFSET as int) == block.padding,
{
}

} // verus!
