//! The dynamic stream selector.
//!
//! A selector connects exactly one of several candidate sample paths to a
//! destination at a time and can be switched while the pipeline runs. It has
//! two shapes: merge (N inputs, one output) and fan-out (one input, N
//! outputs). Switching happens solely through an index-setting control
//! message; an out-of-range index is rejected and leaves the current path
//! unchanged. Data buffered on non-selected paths is governed by a drop
//! policy: left in place (`NoDrop`, upstream eventually backpressures) or
//! consumed and discarded (`DropAll`, preventing backlog and stale-data
//! replay when that path later becomes active).

use vstd::prelude::*;

use crate::pmt::{Pmt, PmtVal};
use crate::port::{report_respects, WorkReport};

verus! {

/// What happens to data arriving on paths that are not currently selected.
#[derive(Clone, Copy, PartialEq, Eq, Structural, Debug)]
pub enum DropPolicy {
    /// Leave data on non-selected paths unconsumed; it accumulates until
    /// upstream backpressures.
    NoDrop,
    /// Consume and discard everything buffered on non-selected paths.
    DropAll,
}

/// Parse a drop-policy name from the configuration surface. An unrecognized
/// name yields `None`; the caller treats that as a fatal configuration error
/// before the pipeline starts.
pub fn parse_drop_policy(name: &str) -> (r: Option<DropPolicy>)
    ensures
        name@ == "none"@ ==> r == Some(DropPolicy::NoDrop),
        name@ == "drop-all"@ ==> r == Some(DropPolicy::DropAll),
        name@ != "none"@ && name@ != "drop-all"@ ==> r is None,
{
    proof {
        reveal_strlit("none");
        reveal_strlit("drop-all");
        assert("none"@.len() == 4);
        assert("drop-all"@.len() == 8);
    }
    let s = name.to_owned();
    let none_name = "none".to_owned();
    let drop_all_name = "drop-all".to_owned();
    if s == none_name {
        Some(DropPolicy::NoDrop)
    } else if s == drop_all_name {
        Some(DropPolicy::DropAll)
    } else {
        None
    }
}

/// The index an index-setting control value leaves a selector at: a `U32`
/// within range replaces the current index, anything else is rejected and the
/// current index stands.
pub open spec fn apply_index_msg(cur: usize, n_paths: usize, m: PmtVal) -> usize {
    match m {
        PmtVal::U32(idx) => if idx < n_paths { idx as usize } else { cur },
        _ => cur,
    }
}

/// Whether an index-setting control value is accepted: it must be a `U32`
/// whose value indexes an existing path.
pub open spec fn valid_index_msg(n_paths: usize, m: PmtVal) -> bool {
    match m {
        PmtVal::U32(idx) => idx < n_paths,
        _ => false,
    }
}

/// Applying the same index-setting value twice in a row is the same as
/// applying it once: the second application changes nothing, so it causes no
/// additional drops or side effects.
pub proof fn lemma_index_application_idempotent(cur: usize, n_paths: usize, m: PmtVal)
    ensures
        apply_index_msg(apply_index_msg(cur, n_paths, m), n_paths, m) == apply_index_msg(
            cur,
            n_paths,
            m,
        ),
{
}

/// Where a burst of index-setting values leaves a selector when they are
/// applied in arrival order: each value is applied to the result of the ones
/// before it, so the last valid value wins.
pub open spec fn fold_index_msgs(cur: usize, n_paths: usize, ms: Seq<PmtVal>) -> usize
    decreases ms.len(),
{
    if ms.len() == 0 {
        cur
    } else {
        fold_index_msgs(apply_index_msg(cur, n_paths, ms[0]), n_paths, ms.skip(1))
    }
}

/// In a burst applied in arrival order, the last valid index-setting value
/// decides the resulting index, whatever came before it.
pub proof fn lemma_last_valid_wins(cur: usize, n_paths: usize, ms: Seq<PmtVal>, idx: u32)
    requires
        ms.len() > 0,
        ms.last() == PmtVal::U32(idx),
        idx < n_paths,
    ensures
        fold_index_msgs(cur, n_paths, ms) == idx as usize,
    decreases ms.len(),
{
    if ms.len() == 1 {
        assert(ms[0] == ms.last());
        assert(ms.skip(1).len() == 0);
        assert(fold_index_msgs(apply_index_msg(cur, n_paths, ms[0]), n_paths, ms.skip(1))
            == apply_index_msg(cur, n_paths, ms[0]));
    } else {
        assert(ms.skip(1).last() == ms.last());
        lemma_last_valid_wins(apply_index_msg(cur, n_paths, ms[0]), n_paths, ms.skip(1), idx);
    }
}

/// How many whole elements move in one invocation: all that are available,
/// capped by the free output space.
pub open spec fn copy_count(avail: usize, space: usize) -> usize {
    if avail <= space {
        avail
    } else {
        space
    }
}

/// A runtime-switchable N-to-one / one-to-N stream selector.
///
/// The same state serves both shapes: `input_index` says which input feeds
/// the single output of the merge shape, `output_index` which output receives
/// the single input of the fan-out shape.
pub struct StreamSelector {
    n_inputs: usize,
    n_outputs: usize,
    input_index: usize,
    output_index: usize,
    drop_policy: DropPolicy,
}

impl StreamSelector {
    /// Number of candidate input paths.
    pub closed spec fn spec_n_inputs(self) -> usize {
        self.n_inputs
    }

    /// Number of candidate output paths.
    pub closed spec fn spec_n_outputs(self) -> usize {
        self.n_outputs
    }

    /// The input currently feeding the output (merge shape).
    pub closed spec fn spec_input_index(self) -> usize {
        self.input_index
    }

    /// The output currently fed by the input (fan-out shape).
    pub closed spec fn spec_output_index(self) -> usize {
        self.output_index
    }

    /// The configured loss policy for non-selected paths.
    pub closed spec fn spec_drop_policy(self) -> DropPolicy {
        self.drop_policy
    }

    /// The selector's invariant: at least one path on each side, and the
    /// active indices always name existing paths.
    pub open spec fn wf(self) -> bool {
        &&& 1 <= self.spec_n_inputs()
        &&& 1 <= self.spec_n_outputs()
        &&& self.spec_input_index() < self.spec_n_inputs()
        &&& self.spec_output_index() < self.spec_n_outputs()
    }

    /// A fresh selector with both active indices at path 0.
    pub fn new(n_inputs: usize, n_outputs: usize, drop_policy: DropPolicy) -> (s: StreamSelector)
        requires
            1 <= n_inputs,
            1 <= n_outputs,
        ensures
            s.wf(),
            s.spec_n_inputs() == n_inputs,
            s.spec_n_outputs() == n_outputs,
            s.spec_input_index() == 0,
            s.spec_output_index() == 0,
            s.spec_drop_policy() == drop_policy,
    {
        StreamSelector { n_inputs, n_outputs, input_index: 0, output_index: 0, drop_policy }
    }

    /// The current active input index.
    pub fn input_index(&self) -> (i: usize)
        ensures
            i == self.spec_input_index(),
    {
        self.input_index
    }

    /// The current active output index.
    pub fn output_index(&self) -> (i: usize)
        ensures
            i == self.spec_output_index(),
    {
        self.output_index
    }

    /// The configured drop policy.
    pub fn drop_policy(&self) -> (p: DropPolicy)
        ensures
            p == self.spec_drop_policy(),
    {
        self.drop_policy
    }

    /// Handle an index-setting control message for the merge shape. A `U32`
    /// within range becomes the active input; anything else is rejected and
    /// the selector is left exactly as it was. Returns whether the message
    /// was accepted, so the caller can report rejected ones.
    pub fn set_input_index(&mut self, m: &Pmt) -> (accepted: bool)
        ensures
            final(self).spec_input_index() == apply_index_msg(
                old(self).spec_input_index(),
                old(self).spec_n_inputs(),
                m@,
            ),
            accepted == valid_index_msg(old(self).spec_n_inputs(), m@),
            final(self).spec_n_inputs() == old(self).spec_n_inputs(),
            final(self).spec_n_outputs() == old(self).spec_n_outputs(),
            final(self).spec_output_index() == old(self).spec_output_index(),
            final(self).spec_drop_policy() == old(self).spec_drop_policy(),
            old(self).wf() ==> final(self).wf(),
    {
        match m {
            Pmt::U32(idx) => {
                let idx = *idx;
                if (idx as usize) < self.n_inputs {
                    self.input_index = idx as usize;
                    true
                } else {
                    false
                }
            },
            _ => false,
        }
    }

    /// Handle an index-setting control message for the fan-out shape, with
    /// the same acceptance rule as `set_input_index`.
    pub fn set_output_index(&mut self, m: &Pmt) -> (accepted: bool)
        ensures
            final(self).spec_output_index() == apply_index_msg(
                old(self).spec_output_index(),
                old(self).spec_n_outputs(),
                m@,
            ),
            accepted == valid_index_msg(old(self).spec_n_outputs(), m@),
            final(self).spec_n_inputs() == old(self).spec_n_inputs(),
            final(self).spec_n_outputs() == old(self).spec_n_outputs(),
            final(self).spec_input_index() == old(self).spec_input_index(),
            final(self).spec_drop_policy() == old(self).spec_drop_policy(),
            old(self).wf() ==> final(self).wf(),
    {
        match m {
            Pmt::U32(idx) => {
                let idx = *idx;
                if (idx as usize) < self.n_outputs {
                    self.output_index = idx as usize;
                    true
                } else {
                    false
                }
            },
            _ => false,
        }
    }

    /// Apply a burst of control messages for the merge shape in arrival
    /// order, before the next data-processing invocation: the last valid one
    /// wins.
    pub fn apply_input_index_msgs(&mut self, msgs: &Vec<Pmt>)
        ensures
            final(self).spec_input_index() == fold_index_msgs(
                old(self).spec_input_index(),
                old(self).spec_n_inputs(),
                msgs@.map_values(|m: Pmt| m@),
            ),
            final(self).spec_n_inputs() == old(self).spec_n_inputs(),
            final(self).spec_n_outputs() == old(self).spec_n_outputs(),
            final(self).spec_output_index() == old(self).spec_output_index(),
            final(self).spec_drop_policy() == old(self).spec_drop_policy(),
            old(self).wf() ==> final(self).wf(),
    {
        let ghost ms = msgs@.map_values(|m: Pmt| m@);
        proof {
            assert(ms.skip(0) =~= ms);
        }
        let mut i: usize = 0;
        while i < msgs.len()
            invariant
                i <= msgs@.len(),
                ms == msgs@.map_values(|m: Pmt| m@),
                fold_index_msgs(old(self).spec_input_index(), old(self).spec_n_inputs(), ms)
                    == fold_index_msgs(
                    self.spec_input_index(),
                    self.spec_n_inputs(),
                    ms.skip(i as int),
                ),
                self.spec_n_inputs() == old(self).spec_n_inputs(),
                self.spec_n_outputs() == old(self).spec_n_outputs(),
                self.spec_output_index() == old(self).spec_output_index(),
                self.spec_drop_policy() == old(self).spec_drop_policy(),
                old(self).wf() ==> self.wf(),
            decreases msgs@.len() - i,
        {
            proof {
                assert(ms.skip(i as int)[0] == ms[i as int]);
                assert(ms.skip(i as int).skip(1) =~= ms.skip(i + 1));
            }
            self.set_input_index(&msgs[i]);
            i = i + 1;
        }
        proof {
            assert(ms.skip(msgs@.len() as int).len() == 0);
        }
    }

    /// What the merge shape declares consumed from input `i` in one
    /// invocation: the copied count from the active input, everything (under
    /// `DropAll`) or nothing (under `NoDrop`) from the others.
    pub open spec fn merge_consumed_at(self, lens: Seq<usize>, out_space: usize, i: int) -> usize {
        if i == self.spec_input_index() {
            copy_count(lens[i], out_space)
        } else if self.spec_drop_policy() == DropPolicy::DropAll {
            lens[i]
        } else {
            0
        }
    }

    /// One invocation of the merge shape (N inputs, one output).
    ///
    /// `inputs[i]` is the readable view of input `i`, `out_space` the free
    /// space of the single output, `in_finished[i]` whether input `i` has
    /// signalled end-of-stream. Exactly the leading `copy_count` elements of
    /// the active input appear on the output, in order and from the active
    /// input alone; non-selected inputs are consumed (and their data
    /// discarded) only as the drop policy says. The stage is finished once
    /// the active input has completed and is fully consumed.
    pub fn work_merge<T: Copy>(
        &self,
        inputs: &Vec<Vec<T>>,
        out_space: usize,
        in_finished: &Vec<bool>,
    ) -> (r: (Vec<T>, WorkReport))
        requires
            self.wf(),
            inputs@.len() == self.spec_n_inputs(),
            in_finished@.len() == self.spec_n_inputs(),
        ensures
            ({
                let active = self.spec_input_index() as int;
                let k = copy_count(inputs@[active]@.len() as usize, out_space);
                let lens = inputs@.map_values(|v: Vec<T>| v@.len() as usize);
                &&& r.0@ == inputs@[active]@.take(k as int)
                &&& r.1.consumed@.len() == inputs@.len()
                &&& forall|i: int|
                    0 <= i < inputs@.len() ==> #[trigger] r.1.consumed@[i]
                        == self.merge_consumed_at(lens, out_space, i)
                &&& r.1.produced@ == seq![r.0@.len() as usize]
                &&& r.1.finished == (in_finished@[active] && k == inputs@[active]@.len())
                &&& report_respects(r.1, lens, seq![out_space])
            }),
    {
        let active = self.input_index;
        let avail = inputs[active].len();
        let k = if avail <= out_space {
            avail
        } else {
            out_space
        };
        let mut out: Vec<T> = Vec::new();
        let mut i: usize = 0;
        while i < k
            invariant
                i <= k,
                k <= inputs@[active as int]@.len(),
                active < inputs@.len(),
                out@ == inputs@[active as int]@.take(i as int),
            decreases k - i,
        {
            out.push(inputs[active][i]);
            proof {
                assert(out@ =~= inputs@[active as int]@.take(i + 1));
            }
            i = i + 1;
        }
        let ghost lens = inputs@.map_values(|v: Vec<T>| v@.len() as usize);
        let mut consumed: Vec<usize> = Vec::new();
        let mut j: usize = 0;
        while j < inputs.len()
            invariant
                j <= inputs@.len(),
                active == self.spec_input_index(),
                active < inputs@.len(),
                k == copy_count(inputs@[active as int]@.len() as usize, out_space),
                lens == inputs@.map_values(|v: Vec<T>| v@.len() as usize),
                consumed@.len() == j,
                forall|i: int|
                    0 <= i < j ==> #[trigger] consumed@[i] == self.merge_consumed_at(
                        lens,
                        out_space,
                        i,
                    ),
            decreases inputs@.len() - j,
        {
            if j == active {
                consumed.push(k);
            } else if matches!(self.drop_policy, DropPolicy::DropAll) {
                consumed.push(inputs[j].len());
            } else {
                consumed.push(0);
            }
            j = j + 1;
        }
        let mut produced: Vec<usize> = Vec::new();
        produced.push(out.len());
        let finished = in_finished[active] && k == avail;
        let report = WorkReport { consumed, produced, finished };
        proof {
            assert(report.produced@ =~= seq![out@.len() as usize]);
        }
        (out, report)
    }

    /// One invocation of the fan-out shape (one input, N outputs).
    ///
    /// The active output receives the leading `copy_count` elements of the
    /// input, capped by that output's free space; every other output is
    /// starved (zero produced) and the downstream stage copes with no data.
    /// Exactly what was copied is consumed. The stage is finished once the
    /// input has completed and is fully consumed.
    pub fn work_fanout<T: Copy>(
        &self,
        input: &Vec<T>,
        out_space: &Vec<usize>,
        in_finished: bool,
    ) -> (r: (Vec<Vec<T>>, WorkReport))
        requires
            self.wf(),
            out_space@.len() == self.spec_n_outputs(),
        ensures
            ({
                let active = self.spec_output_index() as int;
                let k = copy_count(input@.len() as usize, out_space@[active]);
                &&& r.0@.len() == self.spec_n_outputs()
                &&& r.0@[active]@ == input@.take(k as int)
                &&& forall|j: int|
                    0 <= j < r.0@.len() && j != active ==> (#[trigger] r.0@[j])@.len() == 0
                &&& r.1.consumed@ == seq![k]
                &&& r.1.produced@.len() == self.spec_n_outputs()
                &&& forall|j: int|
                    0 <= j < r.1.produced@.len() ==> #[trigger] r.1.produced@[j] == (if j
                        == active {
                        k
                    } else {
                        0
                    })
                &&& r.1.finished == (in_finished && k == input@.len())
                &&& report_respects(r.1, seq![input@.len() as usize], out_space@)
            }),
    {
        let active = self.output_index;
        let avail = input.len();
        let space = out_space[active];
        let k = if avail <= space {
            avail
        } else {
            space
        };
        let mut copied: Vec<T> = Vec::new();
        let mut i: usize = 0;
        while i < k
            invariant
                i <= k,
                k <= input@.len(),
                copied@ == input@.take(i as int),
            decreases k - i,
        {
            copied.push(input[i]);
            proof {
                assert(copied@ =~= input@.take(i + 1));
            }
            i = i + 1;
        }
        let mut outs: Vec<Vec<T>> = Vec::new();
        let mut produced: Vec<usize> = Vec::new();
        let mut j: usize = 0;
        while j < self.n_outputs
            invariant
                j <= self.spec_n_outputs(),
                active == self.spec_output_index(),
                active < self.spec_n_outputs(),
                k == copy_count(input@.len() as usize, out_space@[active as int]),
                k <= input@.len(),
                copied@ == input@.take(k as int),
                outs@.len() == j,
                produced@.len() == j,
                active < j ==> outs@[active as int]@ == input@.take(k as int),
                forall|m: int|
                    0 <= m < j && m != active ==> (#[trigger] outs@[m])@.len() == 0,
                forall|m: int|
                    0 <= m < j ==> #[trigger] produced@[m] == (if m == active {
                        k
                    } else {
                        0
                    }),
            decreases self.spec_n_outputs() - j,
        {
            if j == active {
                let mut chunk: Vec<T> = Vec::new();
                let mut c: usize = 0;
                while c < copied.len()
                    invariant
                        c <= copied@.len(),
                        chunk@ == copied@.take(c as int),
                    decreases copied@.len() - c,
                {
                    chunk.push(copied[c]);
                    proof {
                        assert(chunk@ =~= copied@.take(c + 1));
                    }
                    c = c + 1;
                }
                proof {
                    assert(chunk@ =~= copied@);
                }
                outs.push(chunk);
                produced.push(k);
            } else {
                outs.push(Vec::new());
                produced.push(0);
            }
            j = j + 1;
        }
        let mut consumed: Vec<usize> = Vec::new();
        consumed.push(k);
        let finished = in_finished && k == avail;
        let report = WorkReport { consumed, produced, finished };
        proof {
            assert(report.consumed@ =~= seq![k]);
        }
        (outs, report)
    }
}

} // verus!
