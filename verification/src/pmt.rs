//! Control-plane message values.
//!
//! Blocks exchange discrete, out-of-band control values — path-selection
//! indices, frequencies, raw frame payloads — over message ports that deliver
//! them in the order sent, independently of how much stream data has flowed.

use vstd::prelude::*;

verus! {

/// A control-plane message value.
///
/// The variants cover what the control plane needs to express: a
/// path-selection index, a numeric scalar such as a frequency or gain, and an
/// opaque frame payload.
pub enum Pmt {
    /// Absence of a meaningful value.
    Null,
    /// An unsigned 32-bit index, e.g. a path-selection index.
    U32(u32),
    /// The raw bits of a 64-bit IEEE-754 scalar (frequency, gain). The
    /// numeric interpretation is the caller's; this crate only carries the
    /// value through.
    F64Bits(u64),
    /// An opaque byte payload, e.g. a decoded frame.
    Blob(Vec<u8>),
}

/// The mathematical value of a control-plane message: payloads abstracted to
/// sequences of bytes.
pub enum PmtVal {
    Null,
    U32(u32),
    F64Bits(u64),
    Blob(Seq<u8>),
}

impl View for Pmt {
    type V = PmtVal;

    open spec fn view(&self) -> PmtVal {
        match *self {
            Pmt::Null => PmtVal::Null,
            Pmt::U32(x) => PmtVal::U32(x),
            Pmt::F64Bits(x) => PmtVal::F64Bits(x),
            Pmt::Blob(v) => PmtVal::Blob(v@),
        }
    }
}

impl Pmt {
    /// True of payload-carrying values.
    pub open spec fn is_blob(self) -> bool {
        matches!(self, Pmt::Blob(_))
    }

    /// A copy of this value, carrying the same contents.
    pub fn dup(&self) -> (r: Pmt)
        ensures
            r@ == self@,
    {
        match self {
            Pmt::Null => Pmt::Null,
            Pmt::U32(x) => Pmt::U32(*x),
            Pmt::F64Bits(x) => Pmt::F64Bits(*x),
            Pmt::Blob(v) => Pmt::Blob(clone_bytes(v)),
        }
    }
}

/// A copy of a byte vector with exactly the same contents.
pub fn clone_bytes(v: &Vec<u8>) -> (r: Vec<u8>)
    ensures
        r@ == v@,
{
    let mut r: Vec<u8> = Vec::new();
    let mut i: usize = 0;
    while i < v.len()
        invariant
            i <= v.len(),
            r@ == v@.take(i as int),
        decreases v.len() - i,
    {
        r.push(v[i]);
        i = i + 1;
    }
    proof {
        assert(r@ =~= v@);
    }
    r
}

/// A message port's delivery queue: many producers post values, the owning
/// block takes them one at a time, in the order posted.
pub struct MessageQueue {
    queue: Vec<Pmt>,
}

impl MessageQueue {
    /// The values still awaiting delivery, oldest first.
    pub closed spec fn pending(self) -> Seq<Pmt> {
        self.queue@
    }

    /// An empty queue.
    pub fn new() -> (q: MessageQueue)
        ensures
            q.pending() == Seq::<Pmt>::empty(),
    {
        MessageQueue { queue: Vec::new() }
    }

    /// Post a value; it is delivered after everything already pending.
    pub fn post(&mut self, m: Pmt)
        ensures
            final(self).pending() == old(self).pending().push(m),
    {
        self.queue.push(m);
    }

    /// Take the oldest pending value, if any. Order is preserved: values come
    /// out exactly in the order they were posted.
    pub fn take_next(&mut self) -> (r: Option<Pmt>)
        ensures
            old(self).pending().len() == 0 ==> r is None && final(self).pending()
                == old(self).pending(),
            old(self).pending().len() > 0 ==> r == Some(old(self).pending()[0])
                && final(self).pending() == old(self).pending().skip(1),
    {
        if self.queue.len() == 0 {
            None
        } else {
            let m = self.queue.remove(0);
            proof {
                assert(self.queue@ =~= old(self).pending().skip(1));
            }
            Some(m)
        }
    }

    /// How many values are pending.
    pub fn len(&self) -> (n: usize)
        ensures
            n == self.pending().len(),
    {
        self.queue.len()
    }
}

} // verus!
