//! Immutable mesh data: vertices plus 16-bit indices.
//!
//! A `GeometryBuffer` owns the vertex and index data of one mesh and the
//! index count later used as a draw parameter. It is never mutated after
//! creation: changing geometry means creating a new buffer.

use vstd::prelude::*;
use crate::error::RenderError;
use crate::vertex::{
    lemma_vertices_words_len, vertices_bytes, vertices_to_bytes, vertices_words, Vertex,
};
use crate::wire::{
    lemma_shorts_to_bytes_len, lemma_words_to_bytes_len, push_shorts_bytes, shorts_to_bytes,
};

verus! {

/// Every index refers to a vertex position below `nverts`.
pub open spec fn indices_in_range(ix: Seq<u16>, nverts: int) -> bool {
    forall|i: int| 0 <= i < ix.len() ==> (ix[i] as int) < nverts
}

/// Vertex and index data of one mesh, fixed at creation.
pub struct GeometryBuffer {
    pub vertices: Vec<Vertex>,
    pub indices: Vec<u16>,
    pub num_indices: u32,
}

impl GeometryBuffer {
    /// Every index refers to an existing vertex, the vertex list is
    /// non-empty, and the stored index count is the index list's length.
    pub open spec fn wf(self) -> bool {
        &&& self.vertices@.len() > 0
        &&& indices_in_range(self.indices@, self.vertices@.len() as int)
        &&& self.num_indices == self.indices@.len()
    }

    /// Validate and take ownership of mesh data.
    ///
    /// Succeeds exactly when every index refers to an existing vertex; the
    /// result then reports an index count equal to the index list's length.
    /// An out-of-range index is `InvalidGeometry`, never silently clamped.
    pub fn create(vertices: Vec<Vertex>, indices: Vec<u16>) -> (r: Result<
        GeometryBuffer,
        RenderError,
    >)
        requires
            vertices@.len() > 0,
            indices@.len() <= u32::MAX,
        ensures
            r is Ok <==> indices_in_range(indices@, vertices@.len() as int),
            r matches Ok(g) ==> {
                &&& g.vertices@ == vertices@
                &&& g.indices@ == indices@
                &&& g.num_indices == indices@.len()
                &&& g.wf()
            },
            r matches Err(e) ==> e == RenderError::InvalidGeometry,
    {
        let mut i: usize = 0;
        while i < indices.len()
            invariant
                i <= indices@.len(),
                forall|j: int| 0 <= j < i ==> (indices@[j] as int) < vertices@.len(),
            decreases indices@.len() - i,
        {
            if (indices[i] as usize) >= vertices.len() {
                proof {
                    assert(!((indices@[i as int] as int) < vertices@.len()));
                }
                return Err(RenderError::InvalidGeometry);
            }
            i = i + 1;
        }
        let num_indices = indices.len() as u32;
        Ok(GeometryBuffer { vertices, indices, num_indices })
    }

    /// The index count used as a draw parameter.
    pub fn num_indices(&self) -> (n: u32)
        ensures
            n == self.num_indices,
    {
        self.num_indices
    }

    /// The byte image of the vertex data, as the vertex buffer holds it.
    pub fn vertex_bytes(&self) -> (out: Vec<u8>)
        ensures
            out@ == vertices_bytes(self.vertices@),
    {
        vertices_to_bytes(&self.vertices)
    }

    /// The byte image of the index data, as the index buffer holds it.
    pub fn index_bytes(&self) -> (out: Vec<u8>)
        ensures
            out@ == shorts_to_bytes(self.indices@),
    {
        let mut out: Vec<u8> = Vec::new();
        push_shorts_bytes(&mut out, self.indices.as_slice());
        out
    }
}

/// The vertex wire format: the vertex buffer holds exactly 24 bytes per
/// vertex.
pub proof fn lemma_vertex_buffer_size(g: GeometryBuffer)
    ensures
        vertices_bytes(g.vertices@).len() == 24 * g.vertices@.len(),
{
    lemma_vertices_words_len(g.vertices@);
    lemma_words_to_bytes_len(vertices_words(g.vertices@));
}

/// The index wire format: the index buffer holds exactly 2 bytes per index.
pub proof fn lemma_index_buffer_size(g: GeometryBuffer)
    ensures
        shorts_to_bytes(g.indices@).len() == 2 * g.indices@.len(),
{
    lemma_shorts_to_bytes_len(g.indices@);
}

} // verus!
