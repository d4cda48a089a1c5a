//! Chunk accounting for the dual-channel phase comparator.
//!
//! The comparator consumes two synchronized sample streams, computes a
//! forward FFT over each chunk of a fixed transform length, and emits one
//! time-difference estimate per chunk pair. The transform and the phase
//! arithmetic run on floating-point samples outside this crate; what is
//! verified here is everything the comparator decides: how many whole chunks
//! an invocation may process, that exactly that many elements are consumed
//! from each input and one estimate produced per chunk pair, that an
//! invocation with fewer than one transform length of data does nothing (a
//! transient condition, not an error), that the scratch region stays large
//! enough for the transform, and that completion mirrors the first input.

use vstd::arithmetic::div_mod::{
    lemma_basic_div_specific_divisor, lemma_fundamental_div_mod,
    lemma_mod_division_less_than_divisor,
};
use vstd::arithmetic::mul::{lemma_mul_basics, lemma_mul_inequality, lemma_mul_is_commutative};
use vstd::prelude::*;

use crate::port::{report_respects, WorkReport};

verus! {

/// How many whole chunk pairs one invocation processes: the full transform
/// lengths available on both inputs, capped by the free space of the scalar
/// output (one estimate per chunk pair).
pub open spec fn spec_num_chunks(
    avail0: usize,
    avail1: usize,
    out_space: usize,
    fft_size: usize,
) -> int
    recommends
        1 <= fft_size,
{
    let ilen = if avail0 <= avail1 {
        avail0 as int
    } else {
        avail1 as int
    };
    let full = ilen / (fft_size as int);
    if full <= out_space {
        full
    } else {
        out_space as int
    }
}

/// Partition one invocation's views into whole chunks: returns `(m, chunks)`
/// where `chunks` is the number of chunk pairs to transform and `m == chunks *
/// fft_size` the number of elements to consume from each input. With fewer
/// than `fft_size` elements available on either input, or no output space,
/// both are zero: nothing is consumed and nothing is produced.
pub fn chunk_layout(avail0: usize, avail1: usize, out_space: usize, fft_size: usize) -> (r: (
    usize,
    usize,
))
    requires
        1 <= fft_size,
    ensures
        r.1 == spec_num_chunks(avail0, avail1, out_space, fft_size),
        r.0 == r.1 * fft_size,
        r.0 <= avail0,
        r.0 <= avail1,
        r.1 <= out_space,
        avail0 < fft_size || avail1 < fft_size || out_space == 0 ==> r.0 == 0 && r.1 == 0,
{
    let ilen = if avail0 <= avail1 {
        avail0
    } else {
        avail1
    };
    let full = ilen / fft_size;
    let num_chunks = if full <= out_space {
        full
    } else {
        out_space
    };
    proof {
        lemma_fundamental_div_mod(ilen as int, fft_size as int);
        lemma_mod_division_less_than_divisor(ilen as int, fft_size as int);
        assert((fft_size as int) * (full as int) <= ilen as int);
        lemma_mul_inequality(num_chunks as int, full as int, fft_size as int);
        assert((num_chunks as int) * (fft_size as int) <= (full as int) * (fft_size as int));
        lemma_mul_is_commutative(full as int, fft_size as int);
        lemma_basic_div_specific_divisor(fft_size as int);
        assert(ilen < fft_size ==> full == 0);
        lemma_mul_basics(fft_size as int);
        assert(num_chunks == 0 ==> (num_chunks as int) * (fft_size as int) == 0);
    }
    let m = num_chunks * fft_size;
    (m, num_chunks)
}

/// The persistent configuration of the comparator: the transform length and
/// the size of the scratch region kept for the transform's working memory.
pub struct PhaseComparator {
    fft_size: usize,
    scratch_len: usize,
}

impl PhaseComparator {
    /// The fixed transform length `F`.
    pub closed spec fn spec_fft_size(self) -> usize {
        self.fft_size
    }

    /// The length of the scratch region held for the transform.
    pub closed spec fn spec_scratch_len(self) -> usize {
        self.scratch_len
    }

    /// The comparator's invariant: a usable transform length, and a scratch
    /// region at least as long as the transform implementation requires.
    pub open spec fn wf(self, scratch_required: usize) -> bool {
        &&& 1 <= self.spec_fft_size()
        &&& scratch_required <= self.spec_scratch_len()
    }

    /// Configure a comparator for transform length `fft_size`, given the
    /// working-memory requirement the transform implementation reports for
    /// that length. The scratch region is sized to satisfy it.
    pub fn new(fft_size: usize, scratch_required: usize) -> (c: PhaseComparator)
        requires
            1 <= fft_size,
        ensures
            c.wf(scratch_required),
            c.spec_fft_size() == fft_size,
            c.spec_scratch_len() == scratch_required,
    {
        PhaseComparator { fft_size, scratch_len: scratch_required }
    }

    /// The fixed transform length `F`.
    pub fn fft_size(&self) -> (n: usize)
        ensures
            n == self.spec_fft_size(),
    {
        self.fft_size
    }

    /// The length of the scratch region held for the transform.
    pub fn scratch_len(&self) -> (n: usize)
        ensures
            n == self.spec_scratch_len(),
    {
        self.scratch_len
    }

    /// One invocation's accounting: with `avail0` and `avail1` elements
    /// readable on the two inputs and `out_space` free elements on the scalar
    /// output, consume exactly `m` elements from each input and produce
    /// exactly one estimate per chunk pair, where `(m, chunks)` is the whole-
    /// chunk partition of the views. Fewer than one transform length on
    /// either input means no work and no error. Completion mirrors the first
    /// input, whose availability limits consumption.
    pub fn work_accounting(
        &self,
        avail0: usize,
        avail1: usize,
        out_space: usize,
        in0_finished: bool,
    ) -> (r: WorkReport)
        requires
            1 <= self.spec_fft_size(),
        ensures
            ({
                let chunks = spec_num_chunks(avail0, avail1, out_space, self.spec_fft_size());
                &&& r.consumed@ == seq![
                    (chunks * self.spec_fft_size()) as usize,
                    (chunks * self.spec_fft_size()) as usize,
                ]
                &&& r.produced@ == seq![chunks as usize]
                &&& r.finished == in0_finished
                &&& avail0 < self.spec_fft_size() || avail1 < self.spec_fft_size() || out_space
                    == 0 ==> r.consumed@ == seq![0usize, 0usize] && r.produced@ == seq![0usize]
                &&& report_respects(r, seq![avail0, avail1], seq![out_space])
            }),
    {
        let (m, num_chunks) = chunk_layout(avail0, avail1, out_space, self.fft_size);
        let mut consumed: Vec<usize> = Vec::new();
        consumed.push(m);
        consumed.push(m);
        let mut produced: Vec<usize> = Vec::new();
        produced.push(num_chunks);
        let r = WorkReport { consumed, produced, finished: in0_finished };
        proof {
            assert(r.consumed@ =~= seq![m, m]);
            assert(r.produced@ =~= seq![num_chunks]);
        }
        r
    }
}

} // verus!
