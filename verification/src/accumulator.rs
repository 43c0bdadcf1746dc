//! The audio accumulator: an ordered, append-only byte buffer holding the
//! audio that arrived since the last frame was processed. Only the capture
//! controller appends to it (when a frame callback drains the channel), and
//! each processed frame drains it to empty, so its contents between frames
//! read as "audio since the last frame", never "all audio since start".

use vstd::prelude::*;

verus! {

/// The bytes of a sequence of audio chunks, concatenated in production
/// order: the payload a drain delivers when those chunks were queued.
pub open spec fn concat_chunks(chunks: Seq<Seq<u8>>) -> Seq<u8>
    decreases chunks.len(),
{
    if chunks.len() == 0 {
        Seq::empty()
    } else {
        concat_chunks(chunks.drop_last()) + chunks.last()
    }
}

/// The bytes of each chunk in a queue of chunks, chunk order kept.
pub open spec fn chunks_view(chunks: Seq<Vec<u8>>) -> Seq<Seq<u8>> {
    chunks.map(|i: int, c: Vec<u8>| c@)
}

/// Concatenation distributes over splitting the chunk sequence: the chunks
/// queued before a drain and those queued after yield the same bytes whether
/// drained in one pass or two.
pub proof fn lemma_concat_chunks_add(a: Seq<Seq<u8>>, b: Seq<Seq<u8>>)
    ensures
        concat_chunks(a + b) == concat_chunks(a) + concat_chunks(b),
    decreases b.len(),
{
    if b.len() == 0 {
        assert(a + b =~= a);
        assert(concat_chunks(a) + concat_chunks(b) =~= concat_chunks(a));
    } else {
        assert((a + b).drop_last() =~= a + b.drop_last());
        lemma_concat_chunks_add(a, b.drop_last());
        assert(concat_chunks(a) + concat_chunks(b.drop_last()) + b.last() =~= concat_chunks(a)
            + (concat_chunks(b.drop_last()) + b.last()));
    }
}

/// A mutually-exclusive-access byte buffer accumulating audio chunks
/// between drains.
pub struct AudioAccumulator {
    bytes: Vec<u8>,
}

impl View for AudioAccumulator {
    type V = Seq<u8>;

    closed spec fn view(&self) -> Seq<u8> {
        self.bytes@
    }
}

impl AudioAccumulator {
    /// An empty accumulator: a fresh accumulation window.
    pub fn new() -> (a: AudioAccumulator)
        ensures
            a@ == Seq::<u8>::empty(),
    {
        AudioAccumulator { bytes: Vec::new() }
    }

    /// Append one chunk's bytes after everything already accumulated,
    /// preserving byte order within the chunk.
    pub fn append(&mut self, chunk: &Vec<u8>)
        ensures
            final(self)@ == old(self)@ + chunk@,
    {
        let mut i: usize = 0;
        while i < chunk.len()
            invariant
                i <= chunk.len(),
                self@ == old(self)@ + chunk@.take(i as int),
            decreases chunk.len() - i,
        {
            self.bytes.push(chunk[i]);
            i = i + 1;
            proof {
                assert(old(self)@ + chunk@.take(i - 1) + seq![chunk@[i - 1]] =~= old(self)@
                    + chunk@.take(i as int));
            }
        }
        proof {
            assert(chunk@.take(chunk@.len() as int) =~= chunk@);
        }
    }

    /// Take everything accumulated, in order, leaving the accumulator empty:
    /// the destructive read a processed frame performs.
    pub fn drain(&mut self) -> (r: Vec<u8>)
        ensures
            r@ == old(self)@,
            final(self)@ == Seq::<u8>::empty(),
    {
        let mut taken: Vec<u8> = Vec::new();
        std::mem::swap(&mut taken, &mut self.bytes);
        taken
    }

    /// The accumulated bytes, for inspection without draining.
    pub fn bytes(&self) -> (r: &Vec<u8>)
        ensures
            r@ == self@,
    {
        &self.bytes
    }

    /// How many bytes the current accumulation window holds.
    pub fn len(&self) -> (r: usize)
        ensures
            r == self@.len(),
    {
        self.bytes.len()
    }
}

} // verus!
