//! The growable per-instance record list and its GPU-visible mirror.
//!
//! An `InstanceBuffer` owns an ordered list of instance records (one model
//! matrix each; insertion order is draw order and buffer offset) and keeps a
//! byte image in sync with it — the model of the GPU-visible allocation.
//! No call returns successfully while the two representations diverge.
//!
//! `append` republishes the whole image (the design accepts this O(n)
//! growth cost for simplicity; it is a scaling limitation, not hidden),
//! while `update` rewrites a single 64-byte record segment in place.

use vstd::prelude::*;
use crate::error::RenderError;
use crate::vertex::{
    lemma_records_words_injective, lemma_records_words_len, push_record_bytes, records_bytes,
    records_to_bytes, records_words, InstanceRecord,
};
use crate::wire::{
    bytes_to_words, lemma_words_round_trip, lemma_words_to_bytes_concat, lemma_words_to_bytes_len,
    words_to_bytes, write_bytes_at,
};

verus! {

/// The flattened words of a record list split at record `o`.
proof fn lemma_records_words_split(rs: Seq<InstanceRecord>, o: int)
    requires
        0 <= o < rs.len(),
    ensures
        records_words(rs) == records_words(rs.take(o)) + rs[o].words() + records_words(
            rs.skip(o + 1),
        ),
    decreases o,
{
    if o == 0 {
        assert(rs.take(0) =~= Seq::<InstanceRecord>::empty());
        assert(rs.skip(1) =~= rs.drop_first());
        assert(records_words(rs) =~= records_words(rs.take(0)) + rs[0].words() + records_words(
            rs.skip(1),
        ));
    } else {
        lemma_records_words_split(rs.drop_first(), o - 1);
        assert(rs.drop_first().take(o - 1) =~= rs.take(o).drop_first());
        assert(rs.drop_first().skip(o) =~= rs.skip(o + 1));
        assert(rs.drop_first()[o - 1] == rs[o]);
        assert(records_words(rs.take(o)) =~= rs.take(o)[0].words() + records_words(
            rs.take(o).drop_first(),
        ));
        assert(records_words(rs) =~= records_words(rs.take(o)) + rs[o].words() + records_words(
            rs.skip(o + 1),
        ));
    }
}

/// The byte image of a record list split at record `o`: a 64-byte segment
/// per record, at offset `64 * o`.
pub proof fn lemma_records_bytes_split(rs: Seq<InstanceRecord>, o: int)
    requires
        0 <= o < rs.len(),
    ensures
        records_bytes(rs) == records_bytes(rs.take(o)) + words_to_bytes(rs[o].words())
            + records_bytes(rs.skip(o + 1)),
        records_bytes(rs.take(o)).len() == 64 * o,
        words_to_bytes(rs[o].words()).len() == 64,
        records_bytes(rs).len() == 64 * rs.len(),
{
    lemma_records_words_split(rs, o);
    lemma_words_to_bytes_concat(records_words(rs.take(o)), rs[o].words());
    lemma_words_to_bytes_concat(
        records_words(rs.take(o)) + rs[o].words(),
        records_words(rs.skip(o + 1)),
    );
    lemma_records_words_len(rs);
    lemma_records_words_len(rs.take(o));
    lemma_words_to_bytes_len(records_words(rs));
    lemma_words_to_bytes_len(records_words(rs.take(o)));
    lemma_words_to_bytes_len(rs[o].words());
}

/// An ordered list of instance records together with the byte image the GPU
/// side reads.
pub struct InstanceBuffer {
    pub records: Vec<InstanceRecord>,
    pub published: Vec<u8>,
}

impl InstanceBuffer {
    /// The published byte image agrees with the record list.
    pub open spec fn wf(self) -> bool {
        self.published@ == records_bytes(self.records@)
    }

    /// Take ownership of the initial records and publish their image.
    pub fn create(initial: Vec<InstanceRecord>) -> (b: InstanceBuffer)
        ensures
            b.records@ == initial@,
            b.wf(),
    {
        let published = records_to_bytes(&initial);
        InstanceBuffer { records: initial, published }
    }

    /// The current record count.
    pub fn len(&self) -> (n: usize)
        ensures
            n == self.records@.len(),
    {
        self.records.len()
    }

    /// The record at offset `i`.
    pub fn record_at(&self, i: usize) -> (r: &InstanceRecord)
        requires
            i < self.records@.len(),
        ensures
            *r == self.records@[i as int],
    {
        &self.records[i]
    }

    /// The published byte image, as the GPU-visible allocation holds it.
    pub fn published_bytes(&self) -> (bs: &Vec<u8>)
        ensures
            bs@ == self.published@,
    {
        &self.published
    }

    /// Append one record and republish the whole image; the new record's
    /// offset (the previous count) is returned.
    pub fn append(&mut self, r: InstanceRecord) -> (offset: u32)
        requires
            old(self).wf(),
            old(self).records@.len() < u32::MAX,
        ensures
            final(self).records@ == old(self).records@.push(r),
            offset == old(self).records@.len(),
            final(self).wf(),
    {
        let offset = self.records.len() as u32;
        self.records.push(r);
        self.published = records_to_bytes(&self.records);
        offset
    }

    /// Rewrite the record at `offset` in place, in the list and in its
    /// 64-byte segment of the published image; every other record and every
    /// byte outside that segment stay as they were. An offset at or past the
    /// current count is `OutOfRange`, and nothing is mutated.
    pub fn update(&mut self, offset: u32, r: InstanceRecord) -> (res: Result<(), RenderError>)
        requires
            old(self).wf(),
        ensures
            res is Ok <==> (offset as int) < old(self).records@.len(),
            res is Ok ==> {
                &&& final(self).records@ == old(self).records@.update(offset as int, r)
                &&& final(self).records@[offset as int] == r
                &&& forall|i: int|
                    0 <= i < old(self).records@.len() && i != offset
                        ==> final(self).records@[i] == old(self).records@[i]
                &&& final(self).published@.len() == old(self).published@.len()
                &&& forall|i: int|
                    0 <= i < old(self).published@.len() && !(64 * (offset as int) <= i < 64 * (
                    offset as int) + 64) ==> final(self).published@[i] == old(self).published@[i]
                &&& final(self).wf()
            },
            res matches Err(e) ==> e == RenderError::OutOfRange,
            res is Err ==> *final(self) == *old(self),
    {
        if (offset as usize) >= self.records.len() {
            return Err(RenderError::OutOfRange);
        }
        let o = offset as usize;
        let publen = self.published.len();
        proof {
            lemma_records_bytes_split(self.records@, o as int);
            assert(64 * (o as int) + 64 <= publen);
        }
        let base = o * 64;
        let mut segment: Vec<u8> = Vec::new();
        push_record_bytes(&mut segment, &r);
        proof {
            lemma_words_to_bytes_len(r.words());
        }
        write_bytes_at(&mut self.published, base, segment.as_slice());
        self.records.set(o, r);
        proof {
            let olds = old(self).records@;
            let news = self.records@;
            lemma_records_bytes_split(news, o as int);
            assert(news.take(o as int) =~= olds.take(o as int));
            assert(news.skip(o as int + 1) =~= olds.skip(o as int + 1));
            assert(self.published@ =~= records_bytes(news));
        }
        Ok(())
    }
}

/// The instance wire format: an in-sync buffer publishes exactly 64 bytes
/// per record.
pub proof fn lemma_published_size(b: InstanceBuffer)
    requires
        b.wf(),
    ensures
        b.published@.len() == 64 * b.records@.len(),
{
    lemma_records_words_len(b.records@);
    lemma_words_to_bytes_len(records_words(b.records@));
}

/// The published image and the record list hold identical data in identical
/// order: two in-sync buffers with the same published image hold the same
/// records (the image round-trips), and the image read back as words is
/// exactly the records' flattened words.
pub proof fn lemma_published_round_trip(b: InstanceBuffer, c: InstanceBuffer)
    requires
        b.wf(),
        c.wf(),
        b.published@ == c.published@,
    ensures
        b.records@ == c.records@,
        bytes_to_words(b.published@) == records_words(b.records@),
{
    lemma_words_round_trip(records_words(b.records@));
    lemma_words_round_trip(records_words(c.records@));
    lemma_records_words_injective(b.records@, c.records@);
}

} // verus!
