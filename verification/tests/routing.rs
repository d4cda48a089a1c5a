use sdr_routing::bridge::{BridgeSession, Endpoint, OutboundAction};
use sdr_routing::phase::{chunk_layout, PhaseComparator};
use sdr_routing::pmt::{MessageQueue, Pmt};
use sdr_routing::port::RingPort;
use sdr_routing::router::{broadcast, switch_path, MessageRouter, RouteOutcome};
use sdr_routing::selector::{parse_drop_policy, DropPolicy, StreamSelector};

#[test]
fn pmt_dup_copies_every_variant() {
    match Pmt::Null.dup() {
        Pmt::Null => {}
        _ => panic!("dup changed the variant"),
    }
    match Pmt::U32(7).dup() {
        Pmt::U32(x) => assert_eq!(x, 7),
        _ => panic!("dup changed the variant"),
    }
    match Pmt::F64Bits(0x4059_0000_0000_0000).dup() {
        Pmt::F64Bits(x) => assert_eq!(x, 0x4059_0000_0000_0000),
        _ => panic!("dup changed the variant"),
    }
    match Pmt::Blob(vec![1, 2, 3]).dup() {
        Pmt::Blob(v) => assert_eq!(v, vec![1, 2, 3]),
        _ => panic!("dup changed the variant"),
    }
}

#[test]
fn message_queue_delivers_in_order() {
    let mut q = MessageQueue::new();
    assert_eq!(q.len(), 0);
    q.post(Pmt::U32(1));
    q.post(Pmt::U32(2));
    q.post(Pmt::U32(3));
    assert_eq!(q.len(), 3);
    for expected in 1..=3u32 {
        match q.take_next() {
            Some(Pmt::U32(x)) => assert_eq!(x, expected),
            _ => panic!("wrong value or variant out of the queue"),
        }
    }
    assert!(q.take_next().is_none());
}

#[test]
fn ring_port_cursor_accounting() {
    let mut p = RingPort::new(8);
    assert_eq!(p.readable(), 0);
    assert_eq!(p.writable(), 8);
    p.produce(5);
    assert_eq!(p.readable(), 5);
    assert_eq!(p.writable(), 3);
    p.consume(2);
    assert_eq!(p.readable(), 3);
    assert_eq!(p.writable(), 5);
    assert!(!p.finished());
    assert!(!p.exhausted());
    p.mark_finished();
    assert!(p.finished());
    assert!(!p.exhausted());
    p.consume(3);
    assert!(p.exhausted());
}

#[test]
fn drop_policy_names() {
    assert_eq!(parse_drop_policy("none"), Some(DropPolicy::NoDrop));
    assert_eq!(parse_drop_policy("drop-all"), Some(DropPolicy::DropAll));
    assert_eq!(parse_drop_policy("drop-everything"), None);
    assert_eq!(parse_drop_policy(""), None);
}

#[test]
fn selector_rejects_out_of_range_index() {
    let mut s = StreamSelector::new(2, 1, DropPolicy::DropAll);
    assert_eq!(s.input_index(), 0);
    assert!(!s.set_input_index(&Pmt::U32(2)));
    assert_eq!(s.input_index(), 0);
    assert!(!s.set_input_index(&Pmt::F64Bits(1)));
    assert_eq!(s.input_index(), 0);
    assert!(s.set_input_index(&Pmt::U32(1)));
    assert_eq!(s.input_index(), 1);
}

#[test]
fn selector_index_reapplication_is_idempotent() {
    let mut s = StreamSelector::new(3, 1, DropPolicy::DropAll);
    assert!(s.set_input_index(&Pmt::U32(2)));
    assert_eq!(s.input_index(), 2);
    assert!(s.set_input_index(&Pmt::U32(2)));
    assert_eq!(s.input_index(), 2);
    // Re-application also causes no additional drops: with nothing buffered
    // on the non-active input, a work invocation after the second message
    // consumes exactly what one after the first would have.
    let inputs: Vec<Vec<u32>> = vec![vec![], vec![], vec![40, 41]];
    let finished = vec![false, false, false];
    let (out, report) = s.work_merge(&inputs, 16, &finished);
    assert_eq!(out, vec![40, 41]);
    assert_eq!(report.consumed, vec![0, 0, 2]);
}

#[test]
fn merge_burst_of_control_messages_last_valid_wins() {
    let mut s = StreamSelector::new(2, 1, DropPolicy::NoDrop);
    let burst = vec![
        Pmt::U32(1),
        Pmt::U32(9),
        Pmt::Blob(vec![0]),
        Pmt::U32(0),
    ];
    s.apply_input_index_msgs(&burst);
    assert_eq!(s.input_index(), 0);
    let late = vec![Pmt::U32(1), Pmt::U32(9)];
    s.apply_input_index_msgs(&late);
    assert_eq!(s.input_index(), 1);
}

#[test]
fn merge_switch_discards_inactive_backlog_and_never_reorders() {
    let mut s = StreamSelector::new(2, 1, DropPolicy::DropAll);
    let mut delivered: Vec<u32> = Vec::new();

    // Feed {A1, A2, A3} on input 0 while it is active.
    let inputs: Vec<Vec<u32>> = vec![vec![1, 2, 3], vec![]];
    let finished = vec![false, false];
    let (out, report) = s.work_merge(&inputs, 16, &finished);
    assert_eq!(out, vec![1, 2, 3]);
    assert_eq!(report.consumed, vec![3, 0]);
    assert_eq!(report.produced, vec![3]);
    delivered.extend(out);

    // Data buffered on input 0 right before the switch...
    assert!(s.set_input_index(&Pmt::U32(1)));
    // ...is discarded by the drop policy, not delivered later: feeding
    // {B1, B2} on input 1 with stale data on input 0 consumes the stale data
    // without copying any of it to the output.
    let inputs: Vec<Vec<u32>> = vec![vec![9, 9], vec![4, 5]];
    let (out, report) = s.work_merge(&inputs, 16, &finished);
    assert_eq!(out, vec![4, 5]);
    assert_eq!(report.consumed, vec![2, 2]);
    delivered.extend(out);

    assert_eq!(delivered, vec![1, 2, 3, 4, 5]);
}

#[test]
fn merge_no_drop_policy_leaves_backlog_in_place() {
    let mut s = StreamSelector::new(2, 1, DropPolicy::NoDrop);
    assert!(s.set_input_index(&Pmt::U32(1)));
    let inputs: Vec<Vec<u32>> = vec![vec![9, 9], vec![4]];
    let finished = vec![false, false];
    let (out, report) = s.work_merge(&inputs, 16, &finished);
    assert_eq!(out, vec![4]);
    assert_eq!(report.consumed, vec![0, 1]);
}

#[test]
fn merge_output_space_caps_the_copy() {
    let s = StreamSelector::new(1, 1, DropPolicy::NoDrop);
    let inputs: Vec<Vec<u32>> = vec![vec![1, 2, 3, 4, 5]];
    let finished = vec![false];
    let (out, report) = s.work_merge(&inputs, 2, &finished);
    assert_eq!(out, vec![1, 2]);
    assert_eq!(report.consumed, vec![2]);
    assert_eq!(report.produced, vec![2]);
    assert!(!report.finished);
}

#[test]
fn merge_finishes_with_exhausted_active_input() {
    let s = StreamSelector::new(2, 1, DropPolicy::NoDrop);
    let inputs: Vec<Vec<u32>> = vec![vec![1], vec![]];
    let (_, report) = s.work_merge(&inputs, 16, &vec![true, false]);
    assert!(report.finished);
    // Not finished while the active input still has more than fits.
    let (_, report) = s.work_merge(&inputs, 0, &vec![true, false]);
    assert!(!report.finished);
}

#[test]
fn fanout_feeds_only_the_active_output() {
    let mut s = StreamSelector::new(1, 2, DropPolicy::NoDrop);
    let input: Vec<u32> = vec![7, 8, 9];
    let spaces = vec![16usize, 16usize];
    let (outs, report) = s.work_fanout(&input, &spaces, false);
    assert_eq!(outs, vec![vec![7, 8, 9], vec![]]);
    assert_eq!(report.consumed, vec![3]);
    assert_eq!(report.produced, vec![3, 0]);

    assert!(s.set_output_index(&Pmt::U32(1)));
    let (outs, report) = s.work_fanout(&input, &spaces, true);
    assert_eq!(outs, vec![vec![], vec![7, 8, 9]]);
    assert_eq!(report.produced, vec![0, 3]);
    assert!(report.finished);
}

#[test]
fn router_drops_out_of_range_index_and_keeps_routing() {
    // Two destinations: indices 0 and 1 exist, index 2 does not.
    let mut r = MessageRouter::new(vec![10, 11]);
    assert!(!r.set_destination(&Pmt::U32(2)));
    assert_eq!(r.active(), 0);
    // Subsequent payloads still go to the untouched current destination.
    match r.route(Pmt::Blob(vec![0xab])) {
        RouteOutcome::Forwarded { dest, payload } => {
            assert_eq!(dest, 10);
            match payload {
                Pmt::Blob(v) => assert_eq!(v, vec![0xab]),
                _ => panic!("payload was modified"),
            }
        }
        RouteOutcome::Dropped { .. } => panic!("valid index must forward"),
    }
    // And subsequent valid messages still switch.
    assert!(r.set_destination(&Pmt::U32(1)));
    match r.route(Pmt::U32(5)) {
        RouteOutcome::Forwarded { dest, .. } => assert_eq!(dest, 11),
        RouteOutcome::Dropped { .. } => panic!("valid index must forward"),
    }
}

#[test]
fn switch_path_keeps_all_three_switch_points_consistent() {
    let mut sink = StreamSelector::new(2, 1, DropPolicy::DropAll);
    let mut src = StreamSelector::new(1, 2, DropPolicy::DropAll);
    let mut router = MessageRouter::new(vec![10, 11]);

    assert!(switch_path(&mut sink, &mut src, &mut router, 1));
    assert_eq!(sink.input_index(), 1);
    assert_eq!(src.output_index(), 1);
    assert_eq!(router.active(), 1);

    // An index that names no path anywhere is rejected everywhere and the
    // three switch points stay where they were.
    assert!(!switch_path(&mut sink, &mut src, &mut router, 5));
    assert_eq!(sink.input_index(), 1);
    assert_eq!(src.output_index(), 1);
    assert_eq!(router.active(), 1);
}

#[test]
fn router_with_no_destinations_drops_every_payload() {
    let mut r = MessageRouter::new(vec![]);
    assert!(!r.set_destination(&Pmt::U32(0)));
    match r.route(Pmt::Blob(vec![1, 2])) {
        RouteOutcome::Dropped { payload } => match payload {
            Pmt::Blob(v) => assert_eq!(v, vec![1, 2]),
            _ => panic!("dropped payload was modified"),
        },
        RouteOutcome::Forwarded { .. } => panic!("an empty table has nowhere to forward"),
    }
}

#[test]
fn broadcast_fans_one_update_out_unchanged() {
    let copies = broadcast(&Pmt::U32(868), 4);
    assert_eq!(copies.len(), 4);
    for c in copies {
        match c {
            Pmt::U32(x) => assert_eq!(x, 868),
            _ => panic!("broadcast changed the value"),
        }
    }
}

#[test]
fn chunk_layout_partitions_whole_transforms() {
    // Three whole transforms on one input, two on the other, plenty of
    // output space: two chunk pairs, 4096 elements consumed from each input.
    let (m, chunks) = chunk_layout(2048 * 3 + 5, 2048 * 2 + 7, 10, 2048);
    assert_eq!(chunks, 2);
    assert_eq!(m, 4096);
    // Output space caps the chunk count.
    let (m, chunks) = chunk_layout(2048 * 3, 2048 * 3, 1, 2048);
    assert_eq!(chunks, 1);
    assert_eq!(m, 2048);
}

#[test]
fn phase_comparator_does_nothing_below_one_transform() {
    // Fewer than one transform length available on either input: no output
    // element produced, no input consumed, and that is not an error.
    let (m, chunks) = chunk_layout(2047, 100_000, 10, 2048);
    assert_eq!((m, chunks), (0, 0));
    let (m, chunks) = chunk_layout(100_000, 0, 10, 2048);
    assert_eq!((m, chunks), (0, 0));
    let c = PhaseComparator::new(2048, 2048 * 10);
    let report = c.work_accounting(2047, 5000, 10, false);
    assert_eq!(report.consumed, vec![0, 0]);
    assert_eq!(report.produced, vec![0]);
}

#[test]
fn phase_comparator_accounting_and_completion() {
    let c = PhaseComparator::new(4, 40);
    assert_eq!(c.fft_size(), 4);
    assert_eq!(c.scratch_len(), 40);
    let report = c.work_accounting(10, 9, 100, false);
    assert_eq!(report.consumed, vec![8, 8]);
    assert_eq!(report.produced, vec![2]);
    assert!(!report.finished);
    // Completion mirrors the first input.
    let report = c.work_accounting(0, 0, 100, true);
    assert!(report.finished);
}

#[test]
fn bridge_learns_endpoint_from_first_datagram() {
    let mut session = BridgeSession::new(24);
    assert!(session.endpoint().is_none());

    // A frame queued before the first datagram arrives is dropped, not
    // buffered indefinitely.
    let frame = Pmt::Blob(vec![0u8; 30]);
    assert!(matches!(session.outbound_action(&frame), OutboundAction::DropNoEndpoint));

    // The first inbound datagram's sender becomes the session endpoint.
    let x = Endpoint { ip: 0xc0a8_0001, port: 5555 };
    let (msg, learned) = session.accept_inbound(x, vec![1, 2, 3]);
    assert!(learned);
    assert_eq!(session.endpoint(), Some(x));
    match msg {
        Pmt::Blob(v) => assert_eq!(v, vec![1, 2, 3]),
        _ => panic!("inbound payload must be forwarded as a blob"),
    }

    // Later datagrams from another sender never displace it.
    let y = Endpoint { ip: 0x0a00_0002, port: 6666 };
    let (_, learned) = session.accept_inbound(y, vec![4]);
    assert!(!learned);
    assert_eq!(session.endpoint(), Some(x));
}

#[test]
fn bridge_strips_header_from_outbound_frames() {
    let mut session = BridgeSession::new(24);
    let x = Endpoint { ip: 1, port: 2 };
    let (_, _) = session.accept_inbound(x, vec![]);

    let mut bytes = vec![0u8; 24];
    bytes.extend_from_slice(&[0xde, 0xad, 0xbe, 0xef]);
    match session.outbound_action(&Pmt::Blob(bytes)) {
        OutboundAction::Send { dest, payload } => {
            assert_eq!(dest, x);
            assert_eq!(payload, vec![0xde, 0xad, 0xbe, 0xef]);
        }
        _ => panic!("a long enough frame with a known endpoint must be sent"),
    }

    // Too short to carry the header, or not a byte payload: discarded.
    assert!(matches!(
        session.outbound_action(&Pmt::Blob(vec![0u8; 10])),
        OutboundAction::DropMalformed
    ));
    assert!(matches!(session.outbound_action(&Pmt::U32(1)), OutboundAction::DropMalformed));
}
