//! Rolling frame-time graph: a fixed-capacity circular buffer of 256 frame
//! samples and a write cursor. One sample is written per frame, overwriting
//! the oldest entry; the buffer is created once and never resized.
//!
//! A sample is carried as an opaque 32-bit word (the application encodes its
//! millisecond reading into the word); the graph itself never interprets the
//! word, it only owns the ring discipline, which is what is verified here.

use vstd::prelude::*;

verus! {

/// The ring contents after writing `samples` in order into a fresh graph:
/// the write of `samples[k]` lands at slot `k % 256`.
pub open spec fn ring_after(samples: Seq<u32>) -> Seq<u32>
    decreases samples.len(),
{
    if samples.len() == 0 {
        Seq::new(256, |i: int| 0u32)
    } else {
        ring_after(samples.drop_last()).update(((samples.len() - 1) as int) % 256, samples.last())
    }
}

/// The ring always holds exactly 256 slots.
pub proof fn lemma_ring_after_len(samples: Seq<u32>)
    ensures
        ring_after(samples).len() == 256,
    decreases samples.len(),
{
    if samples.len() > 0 {
        lemma_ring_after_len(samples.drop_last());
    }
}

/// After writing at most 256 samples into a fresh graph, the first
/// `samples.len()` slots hold the written sequence in order, and the
/// remaining slots are still zero.
pub proof fn lemma_ring_prefix(samples: Seq<u32>)
    requires
        samples.len() <= 256,
    ensures
        ring_after(samples).subrange(0, samples.len() as int) == samples,
        forall|i: int|
            samples.len() <= i < 256 ==> #[trigger] ring_after(samples)[i] == 0u32,
    decreases samples.len(),
{
    lemma_ring_after_len(samples);
    if samples.len() == 0 {
        assert(ring_after(samples).subrange(0, 0) =~= samples);
    } else {
        let n = samples.len() as int;
        let prefix = samples.drop_last();
        lemma_ring_prefix(prefix);
        lemma_ring_after_len(prefix);
        assert(ring_after(samples) == ring_after(prefix).update(n - 1, samples[n - 1]));
        assert forall|i: int| 0 <= i < n implies ring_after(samples)[i] == #[trigger] samples[i] by {
            if i < n - 1 {
                assert(prefix[i] == ring_after(prefix).subrange(0, n - 1)[i]);
                assert(prefix[i] == samples[i]);
            }
        }
        assert(ring_after(samples).subrange(0, samples.len() as int) =~= samples);
    }
}

/// Writing a 257th sample wraps the cursor: slot 0 then holds the newest
/// sample, while slots 1 onward still hold the second through 256th samples.
pub proof fn lemma_ring_wraparound(samples: Seq<u32>)
    requires
        samples.len() == 257,
    ensures
        ring_after(samples)[0] == samples[256],
        forall|i: int|
            1 <= i < 256 ==> #[trigger] ring_after(samples)[i] == samples[i],
{
    let prefix = samples.drop_last();
    lemma_ring_after_len(prefix);
    lemma_ring_prefix(prefix);
    assert forall|i: int| 1 <= i < 256 implies #[trigger] ring_after(samples)[i] == samples[i] by {
        assert(prefix[i] == ring_after(prefix).subrange(0, 256)[i]);
    }
}

/// Fixed-capacity circular buffer of frame samples plus its write cursor.
pub struct FrameTimeGraph {
    /// Capacity of the ring; always 256.
    pub max_points: usize,
    /// The sample slots, oldest overwritten first.
    pub buffer: Vec<u32>,
    /// Slot the next sample will be written to.
    pub current_index: usize,
    /// Every sample ever written, in write order.
    pub history: Ghost<Seq<u32>>,
}

impl FrameTimeGraph {
    /// The ring discipline: the buffer holds exactly the result of replaying
    /// the write history into a fresh ring, and the cursor trails the number
    /// of writes modulo the capacity.
    pub open spec fn wf(self) -> bool {
        &&& self.max_points == 256
        &&& self.buffer@.len() == 256
        &&& self.current_index == self.history@.len() % 256
        &&& self.buffer@ == ring_after(self.history@)
    }

    /// A fresh graph: 256 zeroed slots, cursor at the start.
    pub fn new() -> (g: FrameTimeGraph)
        ensures
            g.wf(),
            g.history@ == Seq::<u32>::empty(),
            g.current_index == 0,
    {
        let mut buffer: Vec<u32> = Vec::new();
        let mut i: usize = 0;
        while i < 256
            invariant
                i <= 256,
                buffer@.len() == i,
                forall|j: int| 0 <= j < i ==> buffer@[j] == 0u32,
            decreases 256 - i,
        {
            buffer.push(0u32);
            i = i + 1;
        }
        let g = FrameTimeGraph {
            max_points: 256,
            buffer,
            current_index: 0,
            history: Ghost(Seq::empty()),
        };
        proof {
            assert(g.buffer@ =~= ring_after(Seq::<u32>::empty()));
        }
        g
    }

    /// Write one sample: overwrite the slot under the cursor and advance the
    /// cursor modulo the capacity.
    pub fn update(&mut self, sample: u32)
        requires
            old(self).wf(),
        ensures
            final(self).wf(),
            final(self).history@ == old(self).history@.push(sample),
            final(self).buffer@ == old(self).buffer@.update(
                old(self).current_index as int,
                sample,
            ),
            final(self).current_index == (old(self).current_index + 1) % 256,
            final(self).max_points == old(self).max_points,
    {
        proof {
            lemma_ring_after_len(self.history@);
        }
        self.buffer.set(self.current_index, sample);
        self.current_index = (self.current_index + 1) % self.max_points;
        proof {
            let h = self.history@.push(sample);
            assert(h.drop_last() =~= self.history@);
            self.history@ = h;
        }
    }
}

} // verus!
