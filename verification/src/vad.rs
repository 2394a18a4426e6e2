//! Splitting long recordings into chunks the recogniser can take, cutting at
//! the quietest moment of a search range instead of at a fixed length, so that
//! no word is cut in half.
//!
//! The splitter decides the ranges and keeps the chunk boundaries; finding the
//! quietest window of a range (an energy computation on the samples) is done
//! by the caller, which reports the start of that window back.
use vstd::prelude::*;

verus! {

/// The next thing to do when splitting.
#[derive(Debug, Clone, Copy, PartialEq, Eq, Structural)]
pub enum SplitStep {
    /// The rest, from `start` to the end, fits in one chunk.
    Finish { start: usize },
    /// The next chunk starts at `start` and ends in the quietest place of
    /// `search_start..search_end`. When `scan` is false the range is too short
    /// for a window and the chunk ends at `search_end`; otherwise the caller
    /// finds the window of `window` samples starting in
    /// `search_start..=search_end - window` with the least energy.
    Search { start: usize, search_start: usize, search_end: usize, scan: bool },
}

/// The state of splitting `len` samples into chunks of at most `max_chunk`.
pub struct ChunkSplitter {
    pub len: usize,
    pub max_chunk: usize,
    pub min_chunk: usize,
    pub window: usize,
    /// Start of the chunk not yet cut.
    pub start: usize,
    /// Ends of the chunks cut so far, in order.
    pub bounds: Vec<usize>,
    pub finished: bool,
}

/// The boundary before the `i`-th chunk end: the previous end, or 0.
pub open spec fn prev_bound(b: Seq<usize>, i: int) -> int {
    if i == 0 {
        0
    } else {
        b[i - 1] as int
    }
}

/// The chunk boundaries are increasing, each chunk is no longer than the
/// maximum (unless the maximum is zero and everything is one chunk), and the
/// last boundary is where the next chunk starts.
pub open spec fn bounds_ok(b: Seq<usize>, start: usize, len: usize, max_chunk: usize) -> bool {
    &&& start <= len
    &&& (b.len() == 0 ==> start == 0)
    &&& (b.len() > 0 ==> b.last() == start)
    &&& forall|i: int| 0 <= i < b.len() ==> #[trigger] b[i] <= len
    &&& forall|i: int|
        0 <= i < b.len() ==> prev_bound(b, i) < #[trigger] b[i] || (len == 0 && b[i] == 0)
    &&& max_chunk > 0 ==> forall|i: int|
        0 <= i < b.len() ==> #[trigger] b[i] - prev_bound(b, i) <= max_chunk
}

proof fn lemma_push_bound(b: Seq<usize>, start: usize, len: usize, max_chunk: usize, cut: usize)
    requires
        bounds_ok(b, start, len, max_chunk),
        start < cut <= len,
        cut - start <= max_chunk,
    ensures
        bounds_ok(b.push(cut), cut, len, max_chunk),
{
    let n = b.push(cut);
    assert forall|i: int| 0 <= i < n.len() implies #[trigger] n[i] <= len by {
        if i < b.len() {
            assert(n[i] == b[i]);
        }
    }
    assert forall|i: int| 0 <= i < n.len() implies prev_bound(n, i) < #[trigger] n[i] || (len == 0
        && n[i] == 0) by {
        if i < b.len() {
            assert(n[i] == b[i]);
            assert(prev_bound(n, i) == prev_bound(b, i));
        } else if i > 0 {
            assert(prev_bound(n, i) == b.last());
        }
    }
    assert forall|i: int| 0 <= i < n.len() implies #[trigger] n[i] - prev_bound(n, i) <= max_chunk by {
        if i < b.len() {
            assert(n[i] == b[i]);
            assert(prev_bound(n, i) == prev_bound(b, i));
        } else if i > 0 {
            assert(prev_bound(n, i) == b.last());
        }
    }
}

impl ChunkSplitter {
    pub open spec fn wf(&self) -> bool {
        &&& bounds_ok(self.bounds@, self.start, self.len, self.max_chunk)
        &&& self.min_chunk <= self.max_chunk
        &&& self.finished ==> self.start == self.len
        &&& !self.finished ==> {
            &&& self.start < self.len
            &&& self.max_chunk > 0
            &&& self.window >= 2
            &&& self.window <= usize::MAX / 4
            &&& self.len <= usize::MAX / 2
        }
    }

    /// Starts splitting `len` samples into chunks of at most `max_chunk`,
    /// searching for a quiet cut no earlier than `min_chunk` into a chunk with
    /// a window of `window` samples. When the minimum leaves no room for a
    /// window before the maximum, it is lowered to the maximum less two
    /// windows. A recording that fits in one chunk, or a zero maximum, gives
    /// one chunk with everything; the window and the bounds on the sizes
    /// matter only when there is something to split.
    pub fn new(len: usize, max_chunk: usize, min_chunk: usize, window: usize) -> (r: Self)
        requires
            len > max_chunk && max_chunk > 0 ==> {
                &&& window >= 2
                &&& window <= usize::MAX / 4
                &&& len <= usize::MAX / 2
                &&& min_chunk <= usize::MAX / 2
            },
        ensures
            r.wf(),
            r.len == len,
            r.max_chunk == max_chunk,
            r.window == window,
            (len <= max_chunk || max_chunk == 0) ==> r.finished && r.bounds@ == seq![len],
            !(len <= max_chunk || max_chunk == 0) ==> !r.finished && r.start == 0
                && r.bounds@.len() == 0 && r.min_chunk == if min_chunk + window >= max_chunk {
                if max_chunk >= 2 * window {
                    (max_chunk - 2 * window) as int
                } else {
                    0
                }
            } else {
                min_chunk as int
            },
    {
        if len <= max_chunk || max_chunk == 0 {
            let mut bounds: Vec<usize> = Vec::new();
            bounds.push(len);
            return ChunkSplitter {
                len,
                max_chunk,
                min_chunk: 0,
                window,
                start: len,
                bounds,
                finished: true,
            };
        }
        let mut min = min_chunk;
        if min + window >= max_chunk {
            min = max_chunk.saturating_sub(window * 2);
        }
        ChunkSplitter {
            len,
            max_chunk,
            min_chunk: min,
            window,
            start: 0,
            bounds: Vec::new(),
            finished: false,
        }
    }

    /// What to do next.
    pub fn next_step(&self) -> (r: SplitStep)
        requires
            self.wf(),
            !self.finished,
        ensures
            self.len - self.start <= self.max_chunk ==> r == (SplitStep::Finish { start: self.start }),
            self.len - self.start > self.max_chunk ==> r == (SplitStep::Search {
                start: self.start,
                search_start: (self.start + self.min_chunk) as usize,
                search_end: (self.start + self.max_chunk) as usize,
                scan: self.start + self.max_chunk > self.start + self.min_chunk + self.window,
            }),
    {
        if self.len - self.start <= self.max_chunk {
            SplitStep::Finish { start: self.start }
        } else {
            let search_start = self.start + self.min_chunk;
            let search_end = self.start + self.max_chunk;
            SplitStep::Search {
                start: self.start,
                search_start,
                search_end,
                scan: search_end > search_start + self.window,
            }
        }
    }

    /// Ends the split with the last chunk, from `start` to the end.
    pub fn finish(&mut self)
        requires
            old(self).wf(),
            !old(self).finished,
            old(self).len - old(self).start <= old(self).max_chunk,
        ensures
            final(self).wf(),
            final(self).finished,
            final(self).len == old(self).len,
            final(self).max_chunk == old(self).max_chunk,
            final(self).bounds@ == old(self).bounds@.push(old(self).len),
    {
        proof {
            lemma_push_bound(self.bounds@, self.start, self.len, self.max_chunk, self.len);
        }
        self.bounds.push(self.len);
        self.start = self.len;
        self.finished = true;
    }

    /// Cuts the next chunk. When the step said to scan, `quietest` is the
    /// start of the quietest window found and the cut falls in its middle;
    /// otherwise the cut falls at the end of the search range.
    pub fn advance(&mut self, quietest: usize) -> (cut: usize)
        requires
            old(self).wf(),
            !old(self).finished,
            old(self).len - old(self).start > old(self).max_chunk,
            old(self).start + old(self).max_chunk > old(self).start + old(self).min_chunk
                + old(self).window ==> old(self).start + old(self).min_chunk <= quietest
                <= old(self).start + old(self).max_chunk - old(self).window,
        ensures
            final(self).wf(),
            !final(self).finished,
            final(self).len == old(self).len,
            final(self).max_chunk == old(self).max_chunk,
            final(self).min_chunk == old(self).min_chunk,
            final(self).window == old(self).window,
            old(self).start < cut <= old(self).start + old(self).max_chunk,
            cut < old(self).len,
            cut == if old(self).start + old(self).max_chunk > old(self).start + old(self).min_chunk
                + old(self).window {
                quietest + old(self).window / 2
            } else {
                old(self).start + old(self).max_chunk
            },
            final(self).start == cut,
            final(self).bounds@ == old(self).bounds@.push(cut),
    {
        let search_start = self.start + self.min_chunk;
        let search_end = self.start + self.max_chunk;
        let cut = if search_end > search_start + self.window {
            quietest + self.window / 2
        } else {
            search_end
        };
        proof {
            lemma_push_bound(self.bounds@, self.start, self.len, self.max_chunk, cut);
        }
        self.bounds.push(cut);
        self.start = cut;
        cut
    }
}

} // verus!
