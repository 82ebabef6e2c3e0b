//! Little-endian byte images of 32-bit and 16-bit words.
//!
//! Every GPU-visible allocation this library models (vertex data, instance
//! data, the camera uniform block) is a flat little-endian image of 32-bit
//! words. This module defines that image as a spec-level function, proves
//! that it loses no information (the words can be read back), and provides
//! the executable encoders.

use vstd::prelude::*;
use vstd::bytes::{
    lemma_auto_spec_u16_to_from_le_bytes, lemma_auto_spec_u32_to_from_le_bytes,
    spec_u16_to_le_bytes, spec_u32_from_le_bytes, spec_u32_to_le_bytes, u16_to_le_bytes,
    u32_to_le_bytes,
};

verus! {

/// The little-endian byte image of a sequence of 32-bit words.
pub open spec fn words_to_bytes(ws: Seq<u32>) -> Seq<u8>
    decreases ws.len(),
{
    if ws.len() == 0 {
        Seq::empty()
    } else {
        spec_u32_to_le_bytes(ws[0]) + words_to_bytes(ws.drop_first())
    }
}

/// The 32-bit words read back from a little-endian byte image, four bytes at
/// a time.
pub open spec fn bytes_to_words(bs: Seq<u8>) -> Seq<u32>
    decreases bs.len(),
{
    if bs.len() < 4 {
        Seq::empty()
    } else {
        seq![spec_u32_from_le_bytes(bs.take(4))] + bytes_to_words(bs.skip(4))
    }
}

/// The little-endian byte image of a sequence of 16-bit words.
pub open spec fn shorts_to_bytes(ws: Seq<u16>) -> Seq<u8>
    decreases ws.len(),
{
    if ws.len() == 0 {
        Seq::empty()
    } else {
        spec_u16_to_le_bytes(ws[0]) + shorts_to_bytes(ws.drop_first())
    }
}

/// A word image is four bytes per word.
pub proof fn lemma_words_to_bytes_len(ws: Seq<u32>)
    ensures
        words_to_bytes(ws).len() == 4 * ws.len(),
    decreases ws.len(),
{
    lemma_auto_spec_u32_to_from_le_bytes();
    if ws.len() != 0 {
        lemma_words_to_bytes_len(ws.drop_first());
    }
}

/// A short image is two bytes per word.
pub proof fn lemma_shorts_to_bytes_len(ws: Seq<u16>)
    ensures
        shorts_to_bytes(ws).len() == 2 * ws.len(),
    decreases ws.len(),
{
    lemma_auto_spec_u16_to_from_le_bytes();
    if ws.len() != 0 {
        lemma_shorts_to_bytes_len(ws.drop_first());
    }
}

/// Appending one word appends its four bytes.
pub proof fn lemma_words_to_bytes_push(ws: Seq<u32>, w: u32)
    ensures
        words_to_bytes(ws.push(w)) == words_to_bytes(ws) + spec_u32_to_le_bytes(w),
    decreases ws.len(),
{
    if ws.len() == 0 {
        assert(ws.push(w).drop_first() =~= ws);
        assert(words_to_bytes(ws.push(w)) =~= words_to_bytes(ws) + spec_u32_to_le_bytes(w));
    } else {
        assert(ws.push(w).drop_first() =~= ws.drop_first().push(w));
        lemma_words_to_bytes_push(ws.drop_first(), w);
        assert(words_to_bytes(ws.push(w)) =~= words_to_bytes(ws) + spec_u32_to_le_bytes(w));
    }
}

/// Appending one short appends its two bytes.
pub proof fn lemma_shorts_to_bytes_push(ws: Seq<u16>, w: u16)
    ensures
        shorts_to_bytes(ws.push(w)) == shorts_to_bytes(ws) + spec_u16_to_le_bytes(w),
    decreases ws.len(),
{
    if ws.len() == 0 {
        assert(ws.push(w).drop_first() =~= ws);
        assert(shorts_to_bytes(ws.push(w)) =~= shorts_to_bytes(ws) + spec_u16_to_le_bytes(w));
    } else {
        assert(ws.push(w).drop_first() =~= ws.drop_first().push(w));
        lemma_shorts_to_bytes_push(ws.drop_first(), w);
        assert(shorts_to_bytes(ws.push(w)) =~= shorts_to_bytes(ws) + spec_u16_to_le_bytes(w));
    }
}

/// The image of a concatenation is the concatenation of the images.
pub proof fn lemma_words_to_bytes_concat(a: Seq<u32>, b: Seq<u32>)
    ensures
        words_to_bytes(a + b) == words_to_bytes(a) + words_to_bytes(b),
    decreases a.len(),
{
    if a.len() == 0 {
        assert(a + b =~= b);
        assert(words_to_bytes(a) + words_to_bytes(b) =~= words_to_bytes(b));
    } else {
        assert((a + b).drop_first() =~= a.drop_first() + b);
        lemma_words_to_bytes_concat(a.drop_first(), b);
        assert(words_to_bytes(a + b) =~= words_to_bytes(a) + words_to_bytes(b));
    }
}

/// The byte image loses no information: reading the image back yields the
/// words it was made from.
pub proof fn lemma_words_round_trip(ws: Seq<u32>)
    ensures
        bytes_to_words(words_to_bytes(ws)) == ws,
    decreases ws.len(),
{
    lemma_auto_spec_u32_to_from_le_bytes();
    if ws.len() == 0 {
        assert(bytes_to_words(words_to_bytes(ws)) =~= ws);
    } else {
        let head = spec_u32_to_le_bytes(ws[0]);
        let rest = words_to_bytes(ws.drop_first());
        assert(words_to_bytes(ws).take(4) =~= head);
        assert(words_to_bytes(ws).skip(4) =~= rest);
        lemma_words_round_trip(ws.drop_first());
        assert(bytes_to_words(words_to_bytes(ws)) =~= ws);
    }
}

/// Append the four little-endian bytes of one word.
pub fn push_word_bytes(out: &mut Vec<u8>, w: u32)
    ensures
        final(out)@ == old(out)@ + spec_u32_to_le_bytes(w),
{
    let mut bytes = u32_to_le_bytes(w);
    out.append(&mut bytes);
}

/// Append the two little-endian bytes of one short.
pub fn push_short_bytes(out: &mut Vec<u8>, w: u16)
    ensures
        final(out)@ == old(out)@ + spec_u16_to_le_bytes(w),
{
    let mut bytes = u16_to_le_bytes(w);
    out.append(&mut bytes);
}

/// Append the byte image of a sequence of words.
pub fn push_words_bytes(out: &mut Vec<u8>, ws: &[u32])
    ensures
        final(out)@ == old(out)@ + words_to_bytes(ws@),
{
    let mut i: usize = 0;
    while i < ws.len()
        invariant
            i <= ws@.len(),
            out@ == old(out)@ + words_to_bytes(ws@.take(i as int)),
        decreases ws@.len() - i,
    {
        proof {
            lemma_words_to_bytes_push(ws@.take(i as int), ws@[i as int]);
            assert(ws@.take(i as int).push(ws@[i as int]) =~= ws@.take(i + 1));
        }
        push_word_bytes(out, ws[i]);
        i = i + 1;
    }
    proof {
        assert(ws@.take(ws@.len() as int) =~= ws@);
    }
}

/// Append the byte image of a sequence of shorts.
pub fn push_shorts_bytes(out: &mut Vec<u8>, ws: &[u16])
    ensures
        final(out)@ == old(out)@ + shorts_to_bytes(ws@),
{
    let mut i: usize = 0;
    while i < ws.len()
        invariant
            i <= ws@.len(),
            out@ == old(out)@ + shorts_to_bytes(ws@.take(i as int)),
        decreases ws@.len() - i,
    {
        proof {
            lemma_shorts_to_bytes_push(ws@.take(i as int), ws@[i as int]);
            assert(ws@.take(i as int).push(ws@[i as int]) =~= ws@.take(i + 1));
        }
        push_short_bytes(out, ws[i]);
        i = i + 1;
    }
    proof {
        assert(ws@.take(ws@.len() as int) =~= ws@);
    }
}

/// Overwrite `src.len()` bytes of `dst` starting at `at`, in place: no byte
/// outside that range changes and the length stays the same.
pub fn write_bytes_at(dst: &mut Vec<u8>, at: usize, src: &[u8])
    requires
        at + src@.len() <= old(dst)@.len(),
    ensures
        final(dst)@.len() == old(dst)@.len(),
        forall|i: int|
            0 <= i < old(dst)@.len() && !(at <= i < at + src@.len()) ==> final(dst)@[i] == old(
                dst,
            )@[i],
        forall|i: int| 0 <= i < src@.len() ==> final(dst)@[at + i] == src@[i],
{
    let n = dst.len();
    let mut j: usize = 0;
    while j < src.len()
        invariant
            j <= src@.len(),
            at + src@.len() <= n,
            n == dst@.len(),
            dst@.len() == old(dst)@.len(),
            forall|i: int|
                0 <= i < old(dst)@.len() && !(at <= i < at + j) ==> dst@[i] == old(dst)@[i],
            forall|i: int| 0 <= i < j ==> dst@[at + i] == src@[i],
        decreases src@.len() - j,
    {
        dst.set(at + j, src[j]);
        j = j + 1;
    }
}

} // verus!
