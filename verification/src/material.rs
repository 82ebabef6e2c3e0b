//! The camera's material binding: a 64-byte uniform block and its
//! GPU-visible image, tied to binding slot 0 of the vertex stage.
//!
//! The wire format of the block is fixed by the shader contract: one
//! column-major 4x4 matrix of 32-bit scalars, 64 contiguous little-endian
//! bytes. That layout is an invariant here, not a convention.

use vstd::prelude::*;
use crate::binding::{camera_binding_layout, camera_layout_seq, BindingEntry};
use crate::vertex::{ONE_BITS, ZERO_BITS};
use crate::wire::{
    lemma_words_to_bytes_len, push_words_bytes, words_to_bytes, write_bytes_at,
};
use vstd::array::array_as_slice;

verus! {

/// Size in bytes of the camera uniform block.
pub const UNIFORM_BLOCK_BYTES: u32 = 64;

/// The words of the identity matrix (column-major; same either way).
pub open spec fn identity_matrix_words() -> Seq<u32> {
    seq![
        ONE_BITS, ZERO_BITS, ZERO_BITS, ZERO_BITS,
        ZERO_BITS, ONE_BITS, ZERO_BITS, ZERO_BITS,
        ZERO_BITS, ZERO_BITS, ONE_BITS, ZERO_BITS,
        ZERO_BITS, ZERO_BITS, ZERO_BITS, ONE_BITS,
    ]
}

/// The identity transform as matrix words.
pub fn identity_matrix() -> (m: [u32; 16])
    ensures
        m@ == identity_matrix_words(),
{
    let m = [
        ONE_BITS, ZERO_BITS, ZERO_BITS, ZERO_BITS,
        ZERO_BITS, ONE_BITS, ZERO_BITS, ZERO_BITS,
        ZERO_BITS, ZERO_BITS, ONE_BITS, ZERO_BITS,
        ZERO_BITS, ZERO_BITS, ZERO_BITS, ONE_BITS,
    ];
    proof {
        assert(m@ =~= identity_matrix_words());
    }
    m
}

/// The camera's uniform block and the byte image the GPU side reads, plus
/// the binding layout that ties the block to slot 0 of the vertex stage.
pub struct MaterialBinding {
    pub block: [u32; 16],
    pub gpu: Vec<u8>,
    pub layout: Vec<BindingEntry>,
}

impl MaterialBinding {
    /// The GPU image is the 64-byte little-endian image of the block, and
    /// the layout is the fixed camera layout.
    pub open spec fn wf(self) -> bool {
        &&& self.gpu@ == words_to_bytes(self.block@)
        &&& self.layout@ == camera_layout_seq()
    }

    /// Build a zero-initialized (identity-transform) uniform block, publish
    /// its image, and tie it to the camera's binding layout.
    pub fn create() -> (m: MaterialBinding)
        ensures
            m.wf(),
            m.block@ == identity_matrix_words(),
    {
        let block = identity_matrix();
        let mut gpu: Vec<u8> = Vec::new();
        push_words_bytes(&mut gpu, array_as_slice(&block));
        let layout = camera_binding_layout();
        MaterialBinding { block, gpu, layout }
    }

    /// Overwrite the uniform block and its GPU image in place with a new
    /// view-projection matrix. The image stays 64 bytes; no reallocation.
    pub fn publish(&mut self, matrix: &[u32; 16])
        requires
            old(self).wf(),
        ensures
            final(self).block@ == matrix@,
            final(self).layout@ == old(self).layout@,
            final(self).wf(),
    {
        proof {
            lemma_words_to_bytes_len(old(self).block@);
            lemma_words_to_bytes_len(matrix@);
        }
        let mut segment: Vec<u8> = Vec::new();
        push_words_bytes(&mut segment, array_as_slice(matrix));
        write_bytes_at(&mut self.gpu, 0, segment.as_slice());
        self.block = *matrix;
        proof {
            assert(self.gpu@ =~= words_to_bytes(self.block@));
        }
    }

    /// The published image, as the GPU-visible allocation holds it.
    pub fn gpu_bytes(&self) -> (bs: &Vec<u8>)
        ensures
            bs@ == self.gpu@,
    {
        &self.gpu
    }
}

/// The uniform wire format: a well-formed binding publishes exactly 64
/// contiguous bytes, the little-endian image of the block's sixteen words.
pub proof fn lemma_uniform_block_size(m: MaterialBinding)
    requires
        m.wf(),
    ensures
        m.gpu@.len() == UNIFORM_BLOCK_BYTES,
{
    lemma_words_to_bytes_len(m.block@);
}

} // verus!
