//! The time-series plot block and its GUI-side handle.
//!
//! The block end sits in the flowgraph: each invocation forwards everything
//! readable on every input to the matching plot line's update channel and
//! consumes it all, finishing once all inputs have completed. The handle end
//! sits with the GUI: before each repaint it folds the updates received since
//! last time into each line's plotted values, keeping no more than a fixed
//! number of the most recent ones.
//!
//! The plotted scalars are 64-bit floats to the GUI; here each value is
//! carried as its raw 64-bit bit pattern, which the drawing side converts
//! back. The channels between the two ends, and the drawing itself, live
//! outside this crate.

use vstd::prelude::*;

use crate::port::{report_respects, WorkReport};

verus! {

/// An RGB color for a plotted line.
#[derive(Clone, Copy, PartialEq, Eq, Structural, Debug)]
pub struct Color {
    pub r: u8,
    pub g: u8,
    pub b: u8,
}

/// A line's history after new samples arrive: the concatenation, trimmed from
/// the front to the newest `max` values.
pub open spec fn trimmed(history: Seq<u64>, max: usize) -> Seq<u64> {
    if history.len() <= max {
        history
    } else {
        history.skip(history.len() - max)
    }
}

/// Handle for a single line in a time-series plot.
pub struct TimeseriesLineHandle {
    /// Currently plotted values, as raw 64-bit float bit patterns.
    pub values: Vec<u64>,
    /// The cap on how many values the line keeps.
    pub max_values: usize,
    /// Label for the line.
    pub label: String,
    /// Color for the line.
    pub color: Color,
}

impl TimeseriesLineHandle {
    /// The cap on how many values the line keeps.
    pub open spec fn spec_max_values(self) -> usize {
        self.max_values
    }

    /// A fresh line with no values yet.
    pub fn new(label: String, color: Color, max_values: usize) -> (l: TimeseriesLineHandle)
        ensures
            l.values@ == Seq::<u64>::empty(),
            l.spec_max_values() == max_values,
            l.label == label,
            l.color == color,
    {
        TimeseriesLineHandle { values: Vec::new(), max_values, label, color }
    }

    /// Fold one batch of received samples into the plotted values: append
    /// them, then discard the oldest values until no more than the cap
    /// remain.
    pub fn apply_update(&mut self, buffer: &Vec<u64>)
        ensures
            final(self).values@ == trimmed(
                old(self).values@ + buffer@,
                old(self).spec_max_values(),
            ),
            final(self).spec_max_values() == old(self).spec_max_values(),
            final(self).label == old(self).label,
            final(self).color == old(self).color,
    {
        let mut i: usize = 0;
        while i < buffer.len()
            invariant
                i <= buffer@.len(),
                self.values@ == old(self).values@ + buffer@.take(i as int),
                self.max_values == old(self).spec_max_values(),
                self.label == old(self).label,
                self.color == old(self).color,
            decreases buffer@.len() - i,
        {
            self.values.push(buffer[i]);
            proof {
                assert(self.values@ =~= old(self).values@ + buffer@.take(i + 1));
            }
            i = i + 1;
        }
        proof {
            assert(self.values@ =~= old(self).values@ + buffer@);
        }
        if self.values.len() > self.max_values {
            let excess = self.values.len() - self.max_values;
            let mut kept: Vec<u64> = Vec::new();
            let mut j: usize = excess;
            while j < self.values.len()
                invariant
                    excess <= j <= self.values@.len(),
                    kept@ == self.values@.subrange(excess as int, j as int),
                    self.values@ == old(self).values@ + buffer@,
                    excess == self.values@.len() - self.max_values,
                    self.max_values == old(self).spec_max_values(),
                    self.label == old(self).label,
                    self.color == old(self).color,
                decreases self.values@.len() - j,
            {
                kept.push(self.values[j]);
                proof {
                    assert(kept@ =~= self.values@.subrange(excess as int, j + 1));
                }
                j = j + 1;
            }
            proof {
                assert(kept@ =~= (old(self).values@ + buffer@).skip(excess as int));
            }
            self.values = kept;
        }
    }
}

/// GUI handle for a time-series plot: one handle per line, plus the plot's
/// title, painted above the plot if set.
pub struct TimeseriesHandle {
    /// A handle for each line being plotted.
    pub lines: Vec<TimeseriesLineHandle>,
    /// The plot's title.
    pub title: Option<String>,
}

impl TimeseriesHandle {
    /// Fold the updates received from the flowgraph block into every line.
    /// Called by GUI implementations before drawing the UI; `updates[i]` is
    /// the concatenation of the batches that arrived for line `i` since the
    /// last repaint.
    pub fn process_updates(&mut self, updates: &Vec<Vec<u64>>)
        requires
            updates@.len() == old(self).lines@.len(),
        ensures
            final(self).lines@.len() == old(self).lines@.len(),
            forall|i: int|
                0 <= i < old(self).lines@.len() ==> (#[trigger] final(self).lines@[i]).values@
                    == trimmed(
                    old(self).lines@[i].values@ + updates@[i]@,
                    old(self).lines@[i].spec_max_values(),
                ),
            forall|i: int|
                0 <= i < old(self).lines@.len() ==> (#[trigger] final(self).lines@[i]).label
                    == old(self).lines@[i].label,
            forall|i: int|
                0 <= i < old(self).lines@.len() ==> (#[trigger] final(self).lines@[i]).color
                    == old(self).lines@[i].color,
            forall|i: int|
                0 <= i < old(self).lines@.len()
                    ==> (#[trigger] final(self).lines@[i]).spec_max_values()
                    == old(self).lines@[i].spec_max_values(),
            final(self).title == old(self).title,
    {
        let n = self.lines.len();
        let mut k: usize = 0;
        while k < n
            invariant
                n == old(self).lines@.len(),
                updates@.len() == n,
                k <= n,
                self.lines@.len() == n,
                self.title == old(self).title,
                forall|i: int|
                    k <= i < n ==> #[trigger] self.lines@[i] == old(self).lines@[i],
                forall|i: int|
                    0 <= i < k ==> (#[trigger] self.lines@[i]).values@ == trimmed(
                        old(self).lines@[i].values@ + updates@[i]@,
                        old(self).lines@[i].spec_max_values(),
                    ),
                forall|i: int|
                    0 <= i < k ==> (#[trigger] self.lines@[i]).label == old(self).lines@[i].label,
                forall|i: int|
                    0 <= i < k ==> (#[trigger] self.lines@[i]).color == old(self).lines@[i].color,
                forall|i: int|
                    0 <= i < k ==> (#[trigger] self.lines@[i]).spec_max_values() == old(
                        self,
                    ).lines@[i].spec_max_values(),
            decreases n - k,
        {
            let ghost prev = self.lines@;
            let mut line = self.lines.remove(k);
            line.apply_update(&updates[k]);
            self.lines.insert(k, line);
            proof {
                assert(self.lines@ =~= prev.update(k as int, self.lines@[k as int]));
            }
            k = k + 1;
        }
    }
}

/// The flowgraph end of the plot: one stream input per line.
pub struct Timeseries {
    inputs: Vec<String>,
}

impl Timeseries {
    /// The input port labels, one per plotted line.
    pub closed spec fn spec_inputs(self) -> Seq<String> {
        self.inputs@
    }

    /// Construct a new time-series block with the given input port labels.
    pub fn new(inputs: Vec<String>) -> (t: Timeseries)
        ensures
            t.spec_inputs() == inputs@,
    {
        Timeseries { inputs }
    }

    /// How many stream inputs the block has.
    pub fn n_inputs(&self) -> (n: usize)
        ensures
            n == self.spec_inputs().len(),
    {
        self.inputs.len()
    }

    /// One invocation: forward everything readable on every input to the
    /// matching line's update channel, consume it all, and finish once every
    /// input has signalled completion. `r.0[i]` is the batch to send for line
    /// `i`; the block has no stream outputs.
    pub fn work(&self, inputs: &Vec<Vec<u64>>, in_finished: &Vec<bool>) -> (r: (
        Vec<Vec<u64>>,
        WorkReport,
    ))
        requires
            inputs@.len() == self.spec_inputs().len(),
            in_finished@.len() == self.spec_inputs().len(),
        ensures
            r.0@.len() == inputs@.len(),
            forall|i: int| 0 <= i < inputs@.len() ==> (#[trigger] r.0@[i])@ == inputs@[i]@,
            r.1.consumed@.len() == inputs@.len(),
            forall|i: int|
                0 <= i < inputs@.len() ==> #[trigger] r.1.consumed@[i] == inputs@[i]@.len(),
            r.1.produced@ == Seq::<usize>::empty(),
            r.1.finished == (forall|i: int| 0 <= i < in_finished@.len() ==> in_finished@[i]),
            report_respects(
                r.1,
                inputs@.map_values(|v: Vec<u64>| v@.len() as usize),
                Seq::<usize>::empty(),
            ),
    {
        let mut batches: Vec<Vec<u64>> = Vec::new();
        let mut consumed: Vec<usize> = Vec::new();
        let mut finished = true;
        let mut i: usize = 0;
        while i < inputs.len()
            invariant
                i <= inputs@.len(),
                in_finished@.len() == inputs@.len(),
                batches@.len() == i,
                consumed@.len() == i,
                forall|j: int| 0 <= j < i ==> (#[trigger] batches@[j])@ == inputs@[j]@,
                forall|j: int| 0 <= j < i ==> #[trigger] consumed@[j] == inputs@[j]@.len(),
                finished == (forall|j: int| 0 <= j < i ==> in_finished@[j]),
            decreases inputs@.len() - i,
        {
            let batch = copy_batch(&inputs[i]);
            consumed.push(batch.len());
            batches.push(batch);
            finished = finished && in_finished[i];
            i = i + 1;
        }
        let report = WorkReport { consumed, produced: Vec::new(), finished };
        proof {
            assert(report.produced@ =~= Seq::<usize>::empty());
        }
        (batches, report)
    }
}

/// A copy of one input view, to be handed to the update channel.
fn copy_batch(v: &Vec<u64>) -> (r: Vec<u64>)
    ensures
        r@ == v@,
{
    let mut r: Vec<u64> = Vec::new();
    let mut i: usize = 0;
    while i < v.len()
        invariant
            i <= v@.len(),
            r@ == v@.take(i as int),
        decreases v@.len() - i,
    {
        r.push(v[i]);
        proof {
            assert(r@ =~= v@.take(i + 1));
        }
        i = i + 1;
    }
    proof {
        assert(r@ =~= v@);
    }
    r
}

/// Builder for a [`Timeseries`] block and the matching GUI handle.
///
/// If no lines are added, a single line is added with the default input port
/// name `in`.
pub struct TimeseriesBuilder {
    lines: Vec<(String, Color)>,
    title: Option<String>,
}

/// How many values each plotted line keeps.
pub const MAX_PLOTTED_VALUES: usize = 10_000;

impl Default for TimeseriesBuilder {
    /// A builder with no lines and no title.
    fn default() -> (b: TimeseriesBuilder)
        ensures
            b.spec_lines() == Seq::<(String, Color)>::empty(),
            b.spec_title() is None,
    {
        TimeseriesBuilder { lines: Vec::new(), title: None }
    }
}

impl TimeseriesBuilder {
    /// The lines added so far: label and color of each.
    pub closed spec fn spec_lines(self) -> Seq<(String, Color)> {
        self.lines@
    }

    /// The title set so far, if any.
    pub closed spec fn spec_title(self) -> Option<String> {
        self.title
    }

    /// Start building a new time-series plot.
    pub fn new() -> (b: TimeseriesBuilder)
        ensures
            b.spec_lines() == Seq::<(String, Color)>::empty(),
            b.spec_title() is None,
    {
        Self::default()
    }

    /// Set the plot's title.
    pub fn title(self, title: String) -> (b: TimeseriesBuilder)
        ensures
            b.spec_title() == Some(title),
            b.spec_lines() == self.spec_lines(),
    {
        TimeseriesBuilder { lines: self.lines, title: Some(title) }
    }

    /// Add a new line to the plot with the given label and color.
    pub fn line(self, label: String, color: Color) -> (b: TimeseriesBuilder)
        ensures
            b.spec_lines() == self.spec_lines().push((label, color)),
            b.spec_title() == self.spec_title(),
    {
        let mut lines = self.lines;
        lines.push((label, color));
        TimeseriesBuilder { lines, title: self.title }
    }

    /// Build the block and the handle for the corresponding GUI widget. The
    /// block's inputs and the handle's lines match the added lines one to
    /// one; each line starts empty and keeps at most [`MAX_PLOTTED_VALUES`]
    /// values. Attaching the handle to a GUI, and the channels that carry the
    /// block's updates to it, are the embedding application's business.
    pub fn build(self) -> (r: (Timeseries, TimeseriesHandle))
        ensures
            ({
                let (block, handle) = r;
                &&& handle.title == self.spec_title()
                &&& self.spec_lines().len() > 0 ==> {
                    &&& handle.lines@.len() == self.spec_lines().len()
                    &&& forall|i: int|
                        0 <= i < self.spec_lines().len() ==> (#[trigger] handle.lines@[i]).label
                            == self.spec_lines()[i].0
                    &&& forall|i: int|
                        0 <= i < self.spec_lines().len() ==> (#[trigger] handle.lines@[i]).color
                            == self.spec_lines()[i].1
                    &&& forall|i: int|
                        0 <= i < self.spec_lines().len() ==> (#[trigger] block.spec_inputs()[i])
                            == self.spec_lines()[i].0
                }
                &&& self.spec_lines().len() == 0 ==> {
                    &&& handle.lines@.len() == 1
                    &&& handle.lines@[0].label@ == "in"@
                    &&& handle.lines@[0].color == (Color { r: 0xfa, g: 0xbd, b: 0x2f })
                    &&& block.spec_inputs().len() == 1
                    &&& block.spec_inputs()[0]@ == "in"@
                }
                &&& block.spec_inputs().len() == handle.lines@.len()
                &&& forall|i: int|
                    0 <= i < handle.lines@.len() ==> (#[trigger] handle.lines@[i]).values@
                        == Seq::<u64>::empty()
                &&& forall|i: int|
                    0 <= i < handle.lines@.len() ==> (#[trigger] handle.lines@[i]).spec_max_values()
                        == MAX_PLOTTED_VALUES
            }),
    {
        let mut rest = self.lines;
        if rest.len() == 0 {
            rest.push(("in".to_owned(), Color { r: 0xfa, g: 0xbd, b: 0x2f }));
        }
        let ghost eff = rest@;
        let mut labels: Vec<String> = Vec::new();
        let mut lines: Vec<TimeseriesLineHandle> = Vec::new();
        while rest.len() > 0
            invariant
                lines@.len() + rest@.len() == eff.len(),
                labels@.len() == lines@.len(),
                rest@ == eff.skip(lines@.len() as int),
                forall|i: int|
                    0 <= i < lines@.len() ==> (#[trigger] lines@[i]).label == eff[i].0,
                forall|i: int|
                    0 <= i < lines@.len() ==> (#[trigger] lines@[i]).color == eff[i].1,
                forall|i: int|
                    0 <= i < lines@.len() ==> (#[trigger] lines@[i]).values@
                        == Seq::<u64>::empty(),
                forall|i: int|
                    0 <= i < lines@.len() ==> (#[trigger] lines@[i]).spec_max_values()
                        == MAX_PLOTTED_VALUES,
                forall|i: int| 0 <= i < labels@.len() ==> #[trigger] labels@[i] == eff[i].0,
            decreases rest@.len(),
        {
            let ghost done = lines@.len() as int;
            let (label, color) = rest.remove(0);
            proof {
                assert(eff.skip(done)[0] == eff[done]);
                assert(rest@ =~= eff.skip(done + 1));
            }
            let label_copy = label.clone();
            lines.push(TimeseriesLineHandle::new(label, color, MAX_PLOTTED_VALUES));
            labels.push(label_copy);
        }
        let block = Timeseries::new(labels);
        let handle = TimeseriesHandle { lines, title: self.title };
        (block, handle)
    }
}

} // verus!
