//! The stream-port contract.
//!
//! Each invocation of a processing stage sees, per input port, how many whole
//! elements are available to read and, per output port, how much free space is
//! available to write. The stage then declares exactly how many elements it
//! consumed and produced, and whether it is finished. A well-behaved stage
//! never declares more than the views it was given, and never consumes or
//! produces partial elements.
//!
//! The shared buffer behind a port is a bounded ring with two monotonically
//! increasing cursors; a reader owns exactly the window between the cursors
//! and a writer the rest, so ownership is transferred by moving a cursor,
//! never by copying the region.

use vstd::prelude::*;

verus! {

/// What a stage declares at the end of one invocation: elements consumed per
/// input port, elements produced per output port, and whether the stage is
/// finished.
pub struct WorkReport {
    pub consumed: Vec<usize>,
    pub produced: Vec<usize>,
    pub finished: bool,
}

/// The stream-port contract for one invocation: one declaration per port, and
/// no declaration exceeds the view the stage was given. `in_avail` holds the
/// readable element counts per input port, `out_space` the free element
/// counts per output port.
pub open spec fn report_respects(r: WorkReport, in_avail: Seq<usize>, out_space: Seq<usize>) -> bool {
    &&& r.consumed@.len() == in_avail.len()
    &&& r.produced@.len() == out_space.len()
    &&& forall|i: int| 0 <= i < in_avail.len() ==> #[trigger] r.consumed@[i] <= in_avail[i]
    &&& forall|j: int| 0 <= j < out_space.len() ==> #[trigger] r.produced@[j] <= out_space[j]
}

/// One port's bounded ring region, modelled by its two cursors. `produced`
/// counts every element ever written, `consumed` every element ever read;
/// both only grow. The window `consumed..produced` is owned by the reader,
/// the remaining `capacity - (produced - consumed)` elements by the writer,
/// so no logical element is ever readable and writable at once.
pub struct RingPort {
    capacity: usize,
    produced: u64,
    consumed: u64,
    eos: bool,
}

impl RingPort {
    /// The cursor discipline: the reader never overtakes the writer, and the
    /// writer never laps the reader.
    pub closed spec fn wf(self) -> bool {
        &&& self.consumed <= self.produced
        &&& self.produced - self.consumed <= self.capacity
    }

    pub closed spec fn spec_capacity(self) -> u64 {
        self.capacity as u64
    }

    /// Every element ever written to this port.
    pub closed spec fn total_produced(self) -> u64 {
        self.produced
    }

    /// Every element ever read from this port.
    pub closed spec fn total_consumed(self) -> u64 {
        self.consumed
    }

    /// Whether the producing side has signalled end-of-stream.
    pub closed spec fn spec_finished(self) -> bool {
        self.eos
    }

    /// A fresh, empty ring over `capacity` elements.
    pub fn new(capacity: usize) -> (p: RingPort)
        ensures
            p.wf(),
            p.spec_capacity() == capacity,
            p.total_produced() == 0,
            p.total_consumed() == 0,
            !p.spec_finished(),
    {
        RingPort { capacity, produced: 0, consumed: 0, eos: false }
    }

    /// How many whole elements the reader may consume right now.
    pub fn readable(&self) -> (n: usize)
        requires
            self.wf(),
        ensures
            n == self.total_produced() - self.total_consumed(),
    {
        (self.produced - self.consumed) as usize
    }

    /// How many whole elements the writer may produce right now.
    pub fn writable(&self) -> (n: usize)
        requires
            self.wf(),
        ensures
            n == self.spec_capacity() - (self.total_produced() - self.total_consumed()),
    {
        self.capacity - ((self.produced - self.consumed) as usize)
    }

    /// Declare `n` elements produced, handing them to the reader. The caller
    /// may only declare what fits in the free window it was shown.
    pub fn produce(&mut self, n: usize)
        requires
            old(self).wf(),
            n <= old(self).spec_capacity() - (old(self).total_produced() - old(self).total_consumed()),
            old(self).total_produced() + n <= u64::MAX,
        ensures
            final(self).wf(),
            final(self).total_produced() == old(self).total_produced() + n,
            final(self).total_consumed() == old(self).total_consumed(),
            final(self).spec_capacity() == old(self).spec_capacity(),
            final(self).spec_finished() == old(self).spec_finished(),
    {
        self.produced = self.produced + (n as u64);
    }

    /// Declare `n` elements consumed, handing their space back to the writer.
    /// The caller may only declare what the readable view held.
    pub fn consume(&mut self, n: usize)
        requires
            old(self).wf(),
            n <= old(self).total_produced() - old(self).total_consumed(),
        ensures
            final(self).wf(),
            final(self).total_consumed() == old(self).total_consumed() + n,
            final(self).total_produced() == old(self).total_produced(),
            final(self).spec_capacity() == old(self).spec_capacity(),
            final(self).spec_finished() == old(self).spec_finished(),
    {
        self.consumed = self.consumed + (n as u64);
    }

    /// The producing side signals that no further element will ever arrive.
    pub fn mark_finished(&mut self)
        ensures
            final(self).spec_finished(),
            final(self).total_produced() == old(self).total_produced(),
            final(self).total_consumed() == old(self).total_consumed(),
            final(self).spec_capacity() == old(self).spec_capacity(),
            final(self).wf() == old(self).wf(),
    {
        self.eos = true;
    }

    /// Whether end-of-stream has been signalled.
    pub fn finished(&self) -> (b: bool)
        ensures
            b == self.spec_finished(),
    {
        self.eos
    }

    /// A stage should terminate once its input is exhausted: end-of-stream
    /// was signalled and everything produced has been consumed. A stage that
    /// sees this and holds no buffered output must not withhold completion.
    pub fn exhausted(&self) -> (b: bool)
        requires
            self.wf(),
        ensures
            b == (self.spec_finished() && self.total_consumed() == self.total_produced()),
    {
        self.eos && self.produced == self.consumed
    }
}

} // verus!
