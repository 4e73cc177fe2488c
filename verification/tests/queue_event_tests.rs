use boopboard::event::Event;
use boopboard::queue::EventQueue;
use boopboard::QUEUE_CAP;

#[test]
fn events_come_out_in_fifo_order_exactly_once() {
    let mut q = EventQueue::new();
    let sent = [
        Event::Edge { line: 0, level: true },
        Event::Pulse,
        Event::Edge { line: 3, level: false },
        Event::Edge { line: 0, level: false },
    ];
    for e in sent {
        assert!(q.try_send(e));
    }
    for e in sent {
        assert_eq!(q.try_recv(), Some(e));
    }
    assert_eq!(q.try_recv(), None);
}

#[test]
fn full_queue_gives_backpressure_not_loss() {
    let mut q = EventQueue::new();
    for i in 0..QUEUE_CAP {
        assert!(q.try_send(Event::Edge { line: (i % 4) as u8, level: true }));
    }
    assert_eq!(q.len(), QUEUE_CAP);
    assert!(!q.try_send(Event::Pulse), "a send on a full queue must be refused");
    assert_eq!(q.len(), QUEUE_CAP, "a refused send must leave the queue unchanged");
    assert_eq!(q.try_recv(), Some(Event::Edge { line: 0, level: true }));
    assert!(q.try_send(Event::Pulse), "room freed by a receive admits the next send");
}

#[test]
fn recv_on_empty_queue_is_none() {
    let mut q = EventQueue::new();
    assert_eq!(q.try_recv(), None);
    assert_eq!(q.len(), 0);
}

#[test]
fn edge_codec_round_trips() {
    for line in 0..4u8 {
        for level in [false, true] {
            let buf = Event::encode_edge(line, level);
            assert_eq!(Event::decode_edge(buf), Some(Event::Edge { line, level }));
        }
    }
}

#[test]
fn edge_codec_wire_form_matches_pin_then_level() {
    assert_eq!(Event::encode_edge(3, true), (3, 1));
    assert_eq!(Event::encode_edge(1, false), (1, 0));
}

#[test]
fn decode_rejects_unmonitored_line() {
    assert_eq!(Event::decode_edge((4, 1)), None);
    assert_eq!(Event::decode_edge((255, 0)), None);
}

#[test]
fn decode_reads_any_nonzero_byte_as_high() {
    assert_eq!(
        Event::decode_edge((2, 7)),
        Some(Event::Edge { line: 2, level: true })
    );
    assert_eq!(
        Event::decode_edge((2, 0)),
        Some(Event::Edge { line: 2, level: false })
    );
}
