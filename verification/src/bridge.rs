//! The UDP bridge's endpoint state machine.
//!
//! A bridge relays frames between the pipeline's internal decoded-frame
//! channel and an external UDP peer, in both directions. The peer's address
//! is not configured: it is learned from the first inbound datagram of the
//! session and reused for all subsequent outbound forwarding. Until it is
//! known, outbound frames are dropped rather than buffered indefinitely. Some
//! protocol stages prepend a fixed-size metadata header to received frames;
//! the bridge strips it before forwarding externally. The socket I/O itself
//! runs outside this crate; the functions here decide, for every datagram and
//! every frame, what the bridge does with it.

use vstd::prelude::*;

use crate::pmt::{Pmt, PmtVal};

verus! {

/// A peer's network address as the bridge stores it: an IPv4 address in its
/// canonical 32-bit form, and a port.
#[derive(Clone, Copy, PartialEq, Eq, Structural, Debug)]
pub struct Endpoint {
    pub ip: u32,
    pub port: u16,
}

/// What the outbound half does with one frame from the pipeline.
pub enum OutboundAction {
    /// Send `payload` — the frame minus the fixed-size header — to the
    /// session's learned endpoint.
    Send { dest: Endpoint, payload: Vec<u8> },
    /// No endpoint has been learned yet; the frame is dropped, not buffered.
    DropNoEndpoint,
    /// The frame is not a byte payload, or is shorter than the header it
    /// should carry; it is reported and discarded, never sent mangled.
    DropMalformed,
}

/// What `outbound_action` must decide for every combination of session state
/// and frame.
pub open spec fn outbound_decision(
    endpoint: Option<Endpoint>,
    header_len: usize,
    frame: PmtVal,
    r: OutboundAction,
) -> bool {
    match frame {
        PmtVal::Blob(b) => match endpoint {
            Some(e) => if b.len() >= header_len {
                match r {
                    OutboundAction::Send { dest, payload } => dest == e && payload@ == b.skip(
                        header_len as int,
                    ),
                    _ => false,
                }
            } else {
                r is DropMalformed
            },
            None => r is DropNoEndpoint,
        },
        _ => r is DropMalformed,
    }
}

/// One bridge session: the learned peer endpoint, if any, and the fixed
/// header length its protocol stage prepends to decoded frames.
pub struct BridgeSession {
    endpoint: Option<Endpoint>,
    header_len: usize,
}

impl BridgeSession {
    /// The session's learned peer endpoint, unknown until the first inbound
    /// datagram arrives.
    pub closed spec fn spec_endpoint(self) -> Option<Endpoint> {
        self.endpoint
    }

    /// How many leading header bytes to strip from outbound frames.
    pub closed spec fn spec_header_len(self) -> usize {
        self.header_len
    }

    /// A fresh session: no endpoint known yet.
    pub fn new(header_len: usize) -> (s: BridgeSession)
        ensures
            s.spec_endpoint() is None,
            s.spec_header_len() == header_len,
    {
        BridgeSession { endpoint: None, header_len }
    }

    /// The session's learned peer endpoint, if any.
    pub fn endpoint(&self) -> (e: Option<Endpoint>)
        ensures
            e == self.spec_endpoint(),
    {
        self.endpoint
    }

    /// Handle one inbound datagram. The very first datagram's sender becomes
    /// the session endpoint; later senders never displace it. Every
    /// datagram's payload is forwarded into the control-message path wrapped
    /// as an opaque blob. Returns the wrapped payload and whether the
    /// endpoint was learned just now (the one-time handoff to the outbound
    /// half).
    pub fn accept_inbound(&mut self, sender: Endpoint, payload: Vec<u8>) -> (r: (Pmt, bool))
        ensures
            old(self).spec_endpoint() is None ==> final(self).spec_endpoint() == Some(sender),
            old(self).spec_endpoint() is Some ==> final(self).spec_endpoint() == old(
                self,
            ).spec_endpoint(),
            final(self).spec_header_len() == old(self).spec_header_len(),
            r.0@ == PmtVal::Blob(payload@),
            r.1 == (old(self).spec_endpoint() is None),
    {
        let learned = if self.endpoint.is_none() {
            self.endpoint = Some(sender);
            true
        } else {
            false
        };
        (Pmt::Blob(payload), learned)
    }

    /// Decide what to do with one frame queued for outbound delivery: send
    /// its payload, minus the fixed-size header, to the learned endpoint;
    /// drop it if no endpoint is known yet; report and discard it if it is
    /// not a byte payload or is too short to carry the header.
    pub fn outbound_action(&self, frame: &Pmt) -> (r: OutboundAction)
        ensures
            outbound_decision(self.spec_endpoint(), self.spec_header_len(), frame@, r),
    {
        match frame {
            Pmt::Blob(v) => {
                match &self.endpoint {
                    Some(e) => {
                        if v.len() >= self.header_len {
                            let payload = tail_bytes(v, self.header_len);
                            OutboundAction::Send { dest: *e, payload }
                        } else {
                            OutboundAction::DropMalformed
                        }
                    },
                    None => OutboundAction::DropNoEndpoint,
                }
            },
            _ => OutboundAction::DropMalformed,
        }
    }
}

/// The bytes of `v` from `start` on: the frame with its header stripped.
fn tail_bytes(v: &Vec<u8>, start: usize) -> (r: Vec<u8>)
    requires
        start <= v@.len(),
    ensures
        r@ == v@.skip(start as int),
{
    let mut r: Vec<u8> = Vec::new();
    let mut i: usize = start;
    while i < v.len()
        invariant
            start <= i <= v@.len(),
            r@ == v@.subrange(start as int, i as int),
        decreases v@.len() - i,
    {
        r.push(v[i]);
        proof {
            assert(r@ =~= v@.subrange(start as int, i + 1));
        }
        i = i + 1;
    }
    proof {
        assert(r@ =~= v@.skip(start as int));
    }
    r
}

} // verus!
