//! Per-vertex and per-instance data, and their GPU byte images.
//!
//! Scalar attributes are 32-bit IEEE-754 bit patterns carried as `u32`, so
//! that the byte layout the shader reads can be stated exactly. A vertex is
//! six words (position `x y z`, then color `r g b`, 24 bytes); an instance
//! record is one column-major 4x4 matrix (16 words, 64 bytes).

use vstd::prelude::*;
use crate::wire::{lemma_words_to_bytes_concat, push_words_bytes, words_to_bytes};
use vstd::array::array_as_slice;

verus! {

broadcast use vstd::array::group_array_axioms;

/// Bytes of one vertex in the vertex buffer.
pub const VERTEX_STRIDE_BYTES: u32 = 24;

/// Bytes of one instance record in the instance buffer.
pub const INSTANCE_STRIDE_BYTES: u32 = 64;

/// Bit pattern of floating-point `0.0`.
pub const ZERO_BITS: u32 = 0x0000_0000;

/// Bit pattern of floating-point `0.5`.
pub const HALF_BITS: u32 = 0x3F00_0000;

/// Bit pattern of floating-point `-0.5`.
pub const NEG_HALF_BITS: u32 = 0xBF00_0000;

/// Bit pattern of floating-point `1.0`.
pub const ONE_BITS: u32 = 0x3F80_0000;

/// Bit pattern of floating-point `-1.0`.
pub const NEG_ONE_BITS: u32 = 0xBF80_0000;

/// One vertex: a position and a color, each three scalar bit patterns.
#[derive(Clone, Copy, Debug, PartialEq)]
pub struct Vertex {
    pub position: [u32; 3],
    pub color: [u32; 3],
}

impl Vertex {
    /// The six attribute words in buffer order: position, then color.
    pub open spec fn words(self) -> Seq<u32> {
        self.position@ + self.color@
    }
}

/// One instance record: a column-major 4x4 model matrix, sixteen scalar bit
/// patterns.
#[derive(Clone, Copy, Debug, PartialEq)]
pub struct InstanceRecord {
    pub model: [u32; 16],
}

impl InstanceRecord {
    /// The sixteen matrix words in buffer order (column-major).
    pub open spec fn words(self) -> Seq<u32> {
        self.model@
    }
}

/// The attribute words of a vertex list, flattened in order.
pub open spec fn vertices_words(vs: Seq<Vertex>) -> Seq<u32>
    decreases vs.len(),
{
    if vs.len() == 0 {
        Seq::empty()
    } else {
        vs[0].words() + vertices_words(vs.drop_first())
    }
}

/// The matrix words of a record list, flattened in order.
pub open spec fn records_words(rs: Seq<InstanceRecord>) -> Seq<u32>
    decreases rs.len(),
{
    if rs.len() == 0 {
        Seq::empty()
    } else {
        rs[0].words() + records_words(rs.drop_first())
    }
}

/// The byte image of a vertex list as the vertex buffer holds it.
pub open spec fn vertices_bytes(vs: Seq<Vertex>) -> Seq<u8> {
    words_to_bytes(vertices_words(vs))
}

/// The byte image of a record list as the instance buffer holds it.
pub open spec fn records_bytes(rs: Seq<InstanceRecord>) -> Seq<u8> {
    words_to_bytes(records_words(rs))
}

/// A vertex list contributes six words per vertex.
pub proof fn lemma_vertices_words_len(vs: Seq<Vertex>)
    ensures
        vertices_words(vs).len() == 6 * vs.len(),
    decreases vs.len(),
{
    if vs.len() != 0 {
        lemma_vertices_words_len(vs.drop_first());
    }
}

/// A record list contributes sixteen words per record.
pub proof fn lemma_records_words_len(rs: Seq<InstanceRecord>)
    ensures
        records_words(rs).len() == 16 * rs.len(),
    decreases rs.len(),
{
    if rs.len() != 0 {
        lemma_records_words_len(rs.drop_first());
    }
}

/// Appending one vertex appends its six words.
pub proof fn lemma_vertices_words_push(vs: Seq<Vertex>, v: Vertex)
    ensures
        vertices_words(vs.push(v)) == vertices_words(vs) + v.words(),
    decreases vs.len(),
{
    if vs.len() == 0 {
        assert(vs.push(v).drop_first() =~= vs);
        assert(vertices_words(vs.push(v)) =~= vertices_words(vs) + v.words());
    } else {
        assert(vs.push(v).drop_first() =~= vs.drop_first().push(v));
        lemma_vertices_words_push(vs.drop_first(), v);
        assert(vertices_words(vs.push(v)) =~= vertices_words(vs) + v.words());
    }
}

/// Appending one record appends its sixteen words.
pub proof fn lemma_records_words_push(rs: Seq<InstanceRecord>, r: InstanceRecord)
    ensures
        records_words(rs.push(r)) == records_words(rs) + r.words(),
    decreases rs.len(),
{
    if rs.len() == 0 {
        assert(rs.push(r).drop_first() =~= rs);
        assert(records_words(rs.push(r)) =~= records_words(rs) + r.words());
    } else {
        assert(rs.push(r).drop_first() =~= rs.drop_first().push(r));
        lemma_records_words_push(rs.drop_first(), r);
        assert(records_words(rs.push(r)) =~= records_words(rs) + r.words());
    }
}

/// Equal flattened word sequences come only from equal record lists.
pub proof fn lemma_records_words_injective(a: Seq<InstanceRecord>, b: Seq<InstanceRecord>)
    requires
        records_words(a) == records_words(b),
    ensures
        a == b,
    decreases a.len(),
{
    lemma_records_words_len(a);
    lemma_records_words_len(b);
    if a.len() == 0 {
        assert(a =~= b);
    } else {
        assert(records_words(a).take(16) =~= a[0].words());
        assert(records_words(b).take(16) =~= b[0].words());
        assert(records_words(a).skip(16) =~= records_words(a.drop_first()));
        assert(records_words(b).skip(16) =~= records_words(b.drop_first()));
        assert(a[0].model@ =~= b[0].model@);
        assert(a[0].model =~= b[0].model);
        assert(a[0] == b[0]);
        lemma_records_words_injective(a.drop_first(), b.drop_first());
        assert forall|i: int| 0 <= i < a.len() implies a[i] == b[i] by {
            if i > 0 {
                assert(a[i] == a.drop_first()[i - 1]);
                assert(b[i] == b.drop_first()[i - 1]);
            }
        }
        assert(a =~= b);
    }
}

/// Append the 24-byte image of one vertex.
pub fn push_vertex_bytes(out: &mut Vec<u8>, v: &Vertex)
    ensures
        final(out)@ == old(out)@ + words_to_bytes(v.words()),
{
    proof {
        lemma_words_to_bytes_concat(v.position@, v.color@);
    }
    push_words_bytes(out, array_as_slice(&v.position));
    push_words_bytes(out, array_as_slice(&v.color));
}

/// Append the 64-byte image of one instance record.
pub fn push_record_bytes(out: &mut Vec<u8>, r: &InstanceRecord)
    ensures
        final(out)@ == old(out)@ + words_to_bytes(r.words()),
{
    push_words_bytes(out, array_as_slice(&r.model));
}

/// The byte image of a whole vertex list, as uploaded to the vertex buffer.
pub fn vertices_to_bytes(vs: &Vec<Vertex>) -> (out: Vec<u8>)
    ensures
        out@ == vertices_bytes(vs@),
{
    let mut out: Vec<u8> = Vec::new();
    let mut i: usize = 0;
    while i < vs.len()
        invariant
            i <= vs@.len(),
            out@ == vertices_bytes(vs@.take(i as int)),
        decreases vs@.len() - i,
    {
        proof {
            lemma_vertices_words_push(vs@.take(i as int), vs@[i as int]);
            lemma_words_to_bytes_concat(vertices_words(vs@.take(i as int)), vs@[i as int].words());
            assert(vs@.take(i as int).push(vs@[i as int]) =~= vs@.take(i + 1));
        }
        push_vertex_bytes(&mut out, &vs[i]);
        i = i + 1;
    }
    proof {
        assert(vs@.take(vs@.len() as int) =~= vs@);
    }
    out
}

/// The byte image of a whole record list, as uploaded to the instance buffer.
pub fn records_to_bytes(rs: &Vec<InstanceRecord>) -> (out: Vec<u8>)
    ensures
        out@ == records_bytes(rs@),
{
    let mut out: Vec<u8> = Vec::new();
    let mut i: usize = 0;
    while i < rs.len()
        invariant
            i <= rs@.len(),
            out@ == records_bytes(rs@.take(i as int)),
        decreases rs@.len() - i,
    {
        proof {
            lemma_records_words_push(rs@.take(i as int), rs@[i as int]);
            lemma_words_to_bytes_concat(records_words(rs@.take(i as int)), rs@[i as int].words());
            assert(rs@.take(i as int).push(rs@[i as int]) =~= rs@.take(i + 1));
        }
        push_record_bytes(&mut out, &rs[i]);
        i = i + 1;
    }
    proof {
        assert(rs@.take(rs@.len() as int) =~= rs@);
    }
    out
}

} // verus!
