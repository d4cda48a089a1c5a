//! The message router (output selector).
//!
//! A router directs an inbound control/data payload — typically an outgoing
//! transmit request — to exactly one of several destination stages, chosen by
//! the same kind of externally-set index as the stream selector. Operators
//! keep a router and its companion stream selectors consistent by sending all
//! of them the same index value on every switch. An out-of-range index never
//! reaches the data path: the index message is rejected, and even a router
//! whose index somehow names no destination drops payloads instead of
//! forwarding them to a wrong destination or panicking.

use vstd::prelude::*;

use crate::pmt::{Pmt, PmtVal};
use crate::selector::{apply_index_msg, valid_index_msg, StreamSelector};

verus! {

/// What became of one routed payload.
pub enum RouteOutcome {
    /// The payload was forwarded, unmodified, to the destination with
    /// identifier `dest`.
    Forwarded { dest: u64, payload: Pmt },
    /// The current index named no destination; the payload was dropped and is
    /// returned for reporting.
    Dropped { payload: Pmt },
}

/// Routes each inbound payload to one destination out of an ordered table,
/// selected by an externally-set index.
pub struct MessageRouter {
    destinations: Vec<u64>,
    active: usize,
}

impl MessageRouter {
    /// The ordered routing table: one identifier per destination stage.
    pub closed spec fn spec_destinations(self) -> Seq<u64> {
        self.destinations@
    }

    /// The currently selected destination index.
    pub closed spec fn spec_active(self) -> usize {
        self.active
    }

    /// The router's invariant: the index names a destination whenever the
    /// table has any. A router with an empty table is legal and drops every
    /// payload instead of forwarding it.
    pub open spec fn wf(self) -> bool {
        self.spec_destinations().len() > 0 ==> self.spec_active()
            < self.spec_destinations().len()
    }

    /// A router over the given table, initially steering to destination 0.
    pub fn new(destinations: Vec<u64>) -> (r: MessageRouter)
        ensures
            r.wf(),
            r.spec_destinations() == destinations@,
            r.spec_active() == 0,
    {
        MessageRouter { destinations, active: 0 }
    }

    /// The currently selected destination index.
    pub fn active(&self) -> (i: usize)
        ensures
            i == self.spec_active(),
    {
        self.active
    }

    /// Handle an index-setting control message: a `U32` that indexes the
    /// table becomes the selected destination; anything else — an unknown
    /// index included — is rejected and the table and index stand untouched
    /// for subsequent valid messages. Returns whether the message was
    /// accepted, so the caller can report rejected ones.
    pub fn set_destination(&mut self, m: &Pmt) -> (accepted: bool)
        requires
            old(self).spec_destinations().len() <= usize::MAX,
        ensures
            final(self).spec_active() == apply_index_msg(
                old(self).spec_active(),
                old(self).spec_destinations().len() as usize,
                m@,
            ),
            accepted == valid_index_msg(old(self).spec_destinations().len() as usize, m@),
            final(self).spec_destinations() == old(self).spec_destinations(),
            old(self).wf() ==> final(self).wf(),
    {
        match m {
            Pmt::U32(idx) => {
                let idx = *idx;
                if (idx as usize) < self.destinations.len() {
                    self.active = idx as usize;
                    true
                } else {
                    false
                }
            },
            _ => false,
        }
    }

    /// Route one payload: look up the current index in the table and forward
    /// the payload unmodified to that destination. If the index names no
    /// destination the payload is dropped and reported, never forwarded to a
    /// wrong destination; the router itself is read-only here, so subsequent
    /// valid messages see the same table and index.
    pub fn route(&self, payload: Pmt) -> (r: RouteOutcome)
        ensures
            self.spec_active() < self.spec_destinations().len() ==> r == (RouteOutcome::Forwarded {
                dest: self.spec_destinations()[self.spec_active() as int],
                payload,
            }),
            self.spec_active() >= self.spec_destinations().len() ==> r == (RouteOutcome::Dropped {
                payload,
            }),
    {
        if self.active < self.destinations.len() {
            RouteOutcome::Forwarded { dest: self.destinations[self.active], payload }
        } else {
            RouteOutcome::Dropped { payload }
        }
    }
}

/// The operator's switch point: every path change sends the same index value
/// to the receive-side stream selector, the transmit-side stream selector and
/// the message router, so all three converge on the same current path. Each
/// of the three applies the index under its own acceptance rule; in
/// particular, wherever the index names an existing path on all sides — as it
/// does whenever the sides were built over the same set of paths — all three
/// end up selecting exactly that index. Returns whether all three accepted.
pub fn switch_path(
    sink_selector: &mut StreamSelector,
    src_selector: &mut StreamSelector,
    router: &mut MessageRouter,
    index: u32,
) -> (accepted: bool)
    requires
        old(router).spec_destinations().len() <= usize::MAX,
    ensures
        final(sink_selector).spec_input_index() == apply_index_msg(
            old(sink_selector).spec_input_index(),
            old(sink_selector).spec_n_inputs(),
            PmtVal::U32(index),
        ),
        final(src_selector).spec_output_index() == apply_index_msg(
            old(src_selector).spec_output_index(),
            old(src_selector).spec_n_outputs(),
            PmtVal::U32(index),
        ),
        final(router).spec_active() == apply_index_msg(
            old(router).spec_active(),
            old(router).spec_destinations().len() as usize,
            PmtVal::U32(index),
        ),
        accepted == (valid_index_msg(old(sink_selector).spec_n_inputs(), PmtVal::U32(index))
            && valid_index_msg(old(src_selector).spec_n_outputs(), PmtVal::U32(index))
            && valid_index_msg(
            old(router).spec_destinations().len() as usize,
            PmtVal::U32(index),
        )),
        accepted ==> final(sink_selector).spec_input_index() == index
            && final(src_selector).spec_output_index() == index && final(router).spec_active()
            == index,
        final(sink_selector).spec_n_inputs() == old(sink_selector).spec_n_inputs(),
        final(sink_selector).spec_n_outputs() == old(sink_selector).spec_n_outputs(),
        final(sink_selector).spec_output_index() == old(sink_selector).spec_output_index(),
        final(sink_selector).spec_drop_policy() == old(sink_selector).spec_drop_policy(),
        final(src_selector).spec_n_inputs() == old(src_selector).spec_n_inputs(),
        final(src_selector).spec_n_outputs() == old(src_selector).spec_n_outputs(),
        final(src_selector).spec_input_index() == old(src_selector).spec_input_index(),
        final(src_selector).spec_drop_policy() == old(src_selector).spec_drop_policy(),
        final(router).spec_destinations() == old(router).spec_destinations(),
        old(sink_selector).wf() ==> final(sink_selector).wf(),
        old(src_selector).wf() ==> final(src_selector).wf(),
        old(router).wf() ==> final(router).wf(),
{
    let msg = Pmt::U32(index);
    let a = sink_selector.set_input_index(&msg);
    let b = src_selector.set_output_index(&msg);
    let c = router.set_destination(&msg);
    a && b && c
}

/// The control-plane hub: one update fanned out, unchanged, to each of `n`
/// subscribers. Blocks that all need the same value (a center frequency, a
/// path index) subscribe to one hub instead of ad hoc point-to-point wiring.
pub fn broadcast(msg: &Pmt, n: usize) -> (r: Vec<Pmt>)
    ensures
        r@.len() == n,
        forall|i: int| 0 <= i < n ==> (#[trigger] r@[i])@ == msg@,
{
    let mut r: Vec<Pmt> = Vec::new();
    let mut i: usize = 0;
    while i < n
        invariant
            i <= n,
            r@.len() == i,
            forall|j: int| 0 <= j < i ==> (#[trigger] r@[j])@ == msg@,
        decreases n - i,
    {
        r.push(msg.dup());
        i = i + 1;
    }
    r
}

} // verus!
