//! Microphone sample handling: picking one channel out of interleaved frames
//! and cutting the stream into chunks of a fixed size for streaming.
use vstd::prelude::*;

verus! {

/// The number of samples in each streamed chunk: 100 ms of audio.
pub fn chunk_size_for(sample_rate: u32) -> (r: usize)
    ensures
        r == sample_rate / 10,
{
    (sample_rate / 10) as usize
}

/// The samples of the first channel of interleaved frames: those at the
/// positions that are multiples of `channels`.
pub open spec fn first_channel_spec<T>(data: Seq<T>, channels: nat) -> Seq<T>
    decreases data.len(),
{
    if data.len() == 0 {
        Seq::empty()
    } else {
        let rest = first_channel_spec(data.drop_last(), channels);
        if ((data.len() - 1) as int) % (channels as int) == 0 {
            rest.push(data.last())
        } else {
            rest
        }
    }
}

/// The samples of the first channel of interleaved frames.
pub fn first_channel<T: Copy>(data: &[T], channels: usize) -> (r: Vec<T>)
    requires
        channels > 0,
    ensures
        r@ == first_channel_spec(data@, channels as nat),
{
    let mut out: Vec<T> = Vec::new();
    let mut i: usize = 0;
    while i < data.len()
        invariant
            channels > 0,
            i <= data.len(),
            out@ == first_channel_spec(data@.take(i as int), channels as nat),
        decreases data.len() - i,
    {
        proof {
            assert(data@.take(i + 1).drop_last() =~= data@.take(i as int));
        }
        if i % channels == 0 {
            out.push(data[i]);
        }
        i += 1;
    }
    proof {
        assert(data@.take(data@.len() as int) =~= data@);
    }
    out
}

/// All chunks one after the other.
pub open spec fn concat_chunks<T>(chunks: Seq<Seq<T>>) -> Seq<T>
    decreases chunks.len(),
{
    if chunks.len() == 0 {
        Seq::empty()
    } else {
        concat_chunks(chunks.drop_last()) + chunks.last()
    }
}

/// Samples collected until a whole chunk is there.
pub struct ChunkBuffer<T> {
    pub chunk_size: usize,
    pub pending: Vec<T>,
}

impl<T: Copy> ChunkBuffer<T> {
    /// Fewer samples than a chunk are waiting.
    pub open spec fn wf(&self) -> bool {
        self.chunk_size > 0 && self.pending@.len() < self.chunk_size
    }

    /// An empty buffer for chunks of `chunk_size` samples.
    pub fn new(chunk_size: usize) -> (r: Self)
        requires
            chunk_size > 0,
        ensures
            r.wf(),
            r.chunk_size == chunk_size,
            r.pending@ == Seq::<T>::empty(),
    {
        ChunkBuffer { chunk_size, pending: Vec::new() }
    }

    /// Adds samples and takes out every whole chunk. No sample is lost or
    /// reordered: the waiting samples and the new ones are exactly the chunks
    /// taken out followed by what stays waiting, every chunk has the chunk
    /// size, and fewer than a chunk's worth stays.
    pub fn push_samples(&mut self, data: &[T]) -> (chunks: Vec<Vec<T>>)
        requires
            old(self).wf(),
        ensures
            final(self).wf(),
            final(self).chunk_size == old(self).chunk_size,
            old(self).pending@ + data@ == concat_chunks(chunks@.map_values(|c: Vec<T>| c@))
                + final(self).pending@,
            forall|i: int| 0 <= i < chunks@.len() ==> #[trigger] chunks@[i]@.len() == old(
                self,
            ).chunk_size,
    {
        let ghost all = self.pending@ + data@;
        let mut chunks: Vec<Vec<T>> = Vec::new();
        let mut i: usize = 0;
        proof {
            assert(concat_chunks(chunks@.map_values(|c: Vec<T>| c@)) =~= Seq::<T>::empty());
            assert(all.take(self.pending@.len() as int) =~= self.pending@);
        }
        while i < data.len()
            invariant
                self.chunk_size > 0,
                self.chunk_size == old(self).chunk_size,
                i <= data.len(),
                all == old(self).pending@ + data@,
                self.pending@.len() < self.chunk_size,
                all.take(old(self).pending@.len() + i) == concat_chunks(
                    chunks@.map_values(|c: Vec<T>| c@),
                ) + self.pending@,
                forall|k: int| 0 <= k < chunks@.len() ==> #[trigger] chunks@[k]@.len()
                    == self.chunk_size,
            decreases data.len() - i,
        {
            let ghost cc = concat_chunks(chunks@.map_values(|c: Vec<T>| c@));
            self.pending.push(data[i]);
            i += 1;
            proof {
                assert(all.take(old(self).pending@.len() + i) =~= all.take(
                    old(self).pending@.len() + i - 1,
                ).push(data@[i - 1]));
                assert(all.take(old(self).pending@.len() + i) =~= cc + self.pending@);
            }
            if self.pending.len() == self.chunk_size {
                let mut chunk: Vec<T> = Vec::new();
                std::mem::swap(&mut chunk, &mut self.pending);
                let ghost before = chunks@;
                chunks.push(chunk);
                proof {
                    let m = chunks@.map_values(|c: Vec<T>| c@);
                    assert(m.drop_last() =~= before.map_values(|c: Vec<T>| c@));
                    assert(m.last() == chunk@);
                    assert(concat_chunks(m) == cc + chunk@);
                    assert(all.take(old(self).pending@.len() + i) =~= concat_chunks(m)
                        + self.pending@);
                }
            }
        }
        proof {
            assert(all.take((old(self).pending@.len() + data@.len()) as int) =~= all);
        }
        chunks
    }
}

} // verus!
