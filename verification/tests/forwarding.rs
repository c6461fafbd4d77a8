use ttytee::policy::{
    apply_forward_event, below_high_water, staleness_expired, ForwardEvent, ModelEndpoint,
    ModelPair,
};
use ttytee::{HIGH_WATER_MARK, READ_BUFFER_CAPACITY};

fn chunk_of(byte: u8, len: usize) -> Vec<u8> {
    let mut v: Vec<u8> = Vec::new();
    for _ in 0..len {
        v.push(byte);
    }
    v
}

#[test]
fn staleness_boundary() {
    // elapsed equal to the timeout is not yet stale; one past it is.
    assert!(!staleness_expired(1000, 2000, 1000));
    assert!(staleness_expired(1000, 2001, 1000));
    assert!(!staleness_expired(5, 5, 0));
    assert!(staleness_expired(5, 6, 0));
}

#[test]
fn high_water_boundary() {
    assert!(below_high_water(0));
    assert!(below_high_water(HIGH_WATER_MARK - 1));
    assert!(!below_high_water(HIGH_WATER_MARK));
    assert!(!below_high_water(HIGH_WATER_MARK + 1));
}

#[test]
fn clock_transition_per_event() {
    // A failed step and a plain drop leave the clock ticking.
    assert_eq!(apply_forward_event(100, 900, &ForwardEvent::StepFailed), 100);
    assert_eq!(
        apply_forward_event(100, 900, &ForwardEvent::Dropped { cleared: false }),
        100
    );
    // A staleness clear resets it even when the chunk then went nowhere.
    assert_eq!(
        apply_forward_event(100, 900, &ForwardEvent::Dropped { cleared: true }),
        900
    );
    assert_eq!(
        apply_forward_event(100, 900, &ForwardEvent::WriteFailed { cleared: true }),
        900
    );
    // A write failure without a clear preserves the previous clock.
    assert_eq!(
        apply_forward_event(100, 900, &ForwardEvent::WriteFailed { cleared: false }),
        100
    );
    // A confirmed write always restarts the clock.
    assert_eq!(
        apply_forward_event(100, 900, &ForwardEvent::Written { cleared: false }),
        900
    );
    assert_eq!(
        apply_forward_event(100, 900, &ForwardEvent::Written { cleared: true }),
        900
    );
}

#[test]
fn fresh_write_appends() {
    let mut ep = ModelEndpoint::new(0);
    let ev = ep.forward(50, &vec![7u8, 9u8], 100, true);
    assert_eq!(ev, ForwardEvent::Written { cleared: false });
    assert_eq!(ep.backlog(), 2);
    assert_eq!(ep.queued, vec![7u8, 9u8]);
    assert_eq!(ep.last_good_write_ms, 50);
}

#[test]
fn stale_buffer_is_cleared_before_write() {
    let mut ep = ModelEndpoint::new(0);
    ep.forward(50, &vec![1u8, 1, 1], 100, true);
    // 151 ms elapsed > 100 ms timeout: the unread bytes are discarded and
    // only the fresh chunk remains.
    let ev = ep.forward(201, &vec![2u8, 2], 100, true);
    assert_eq!(ev, ForwardEvent::Written { cleared: true });
    assert_eq!(ep.queued, vec![2u8, 2]);
    assert_eq!(ep.last_good_write_ms, 201);
}

#[test]
fn write_failure_keeps_clock_ticking() {
    let mut ep = ModelEndpoint::new(0);
    ep.forward(50, &vec![1u8], 100, true);
    let ev = ep.forward(100, &vec![2u8], 100, false);
    assert_eq!(ev, ForwardEvent::WriteFailed { cleared: false });
    // The chunk is lost and the clock still reads the last good write.
    assert_eq!(ep.queued, vec![1u8]);
    assert_eq!(ep.last_good_write_ms, 50);
}

#[test]
fn write_failure_after_clear_restarts_clock() {
    let mut ep = ModelEndpoint::new(0);
    ep.forward(50, &vec![1u8], 100, true);
    let ev = ep.forward(500, &vec![2u8], 100, false);
    assert_eq!(ev, ForwardEvent::WriteFailed { cleared: true });
    // The stale bytes are gone, the write failed, and the clock restarted at
    // the clear.
    assert!(ep.queued.is_empty());
    assert_eq!(ep.last_good_write_ms, 500);
}

#[test]
fn backlog_at_high_water_drops_chunk() {
    let mut ep = ModelEndpoint::new(0);
    // Fill the backlog up to the high-water mark with timely writes.
    let fill = chunk_of(b'x', HIGH_WATER_MARK as usize);
    ep.forward(10, &fill, 1000, true);
    assert_eq!(ep.backlog(), HIGH_WATER_MARK as usize);
    // Still fresh, but the backlog is at the mark: the chunk is dropped and
    // nothing changes.
    let ev = ep.forward(20, &vec![9u8; 4], 1000, true);
    assert_eq!(ev, ForwardEvent::Dropped { cleared: false });
    assert_eq!(ep.backlog(), HIGH_WATER_MARK as usize);
    assert_eq!(ep.last_good_write_ms, 10);
    // Once the consumer drains below the mark, writes resume.
    let drained = ep.read(1);
    assert_eq!(drained, vec![b'x']);
    let ev = ep.forward(30, &vec![9u8; 4], 1000, true);
    assert_eq!(ev, ForwardEvent::Written { cleared: false });
    assert_eq!(ep.backlog(), HIGH_WATER_MARK as usize + 3);
}

#[test]
fn backlog_at_high_water_still_cleared_when_stale() {
    let mut ep = ModelEndpoint::new(0);
    let fill = chunk_of(b'x', HIGH_WATER_MARK as usize);
    ep.forward(10, &fill, 1000, true);
    // Past the staleness timeout the full backlog is discarded and the fresh
    // chunk goes through.
    let ev = ep.forward(2000, &vec![9u8, 9], 1000, true);
    assert_eq!(ev, ForwardEvent::Written { cleared: true });
    assert_eq!(ep.queued, vec![9u8, 9]);
}

#[test]
fn consumer_read_takes_prefix_only() {
    let mut ep = ModelEndpoint::new(0);
    ep.forward(10, &vec![1u8, 2, 3, 4, 5], 100, true);
    let out = ep.read(3);
    assert_eq!(out, vec![1u8, 2, 3]);
    assert_eq!(ep.queued, vec![4u8, 5]);
    // Reading does not touch the staleness clock.
    assert_eq!(ep.last_good_write_ms, 10);
    // Reading more than is queued returns what is there.
    let rest = ep.read(100);
    assert_eq!(rest, vec![4u8, 5]);
    assert_eq!(ep.backlog(), 0);
}

#[test]
fn endpoints_are_independent() {
    let mut pair = ModelPair::new(0);
    pair.forward_both(50, &vec![1u8, 1], 100, true, true);
    // Endpoint 0's write fails while endpoint 1 goes stale and clears;
    // neither changes the other's clock or buffer.
    let (ev0, ev1) = pair.forward_both(300, &vec![2u8], 100, false, true);
    assert_eq!(ev0, ForwardEvent::WriteFailed { cleared: true });
    assert_eq!(ev1, ForwardEvent::Written { cleared: true });
    assert_eq!(pair.ep1.queued, vec![2u8]);
    assert_eq!(pair.ep1.last_good_write_ms, 300);
    assert!(pair.ep0.queued.is_empty());
    assert_eq!(pair.ep0.last_good_write_ms, 300);

    // Now only endpoint 0 fails while endpoint 1 keeps a timely stream: the
    // failing sibling leaves endpoint 1's state exactly as a lone endpoint.
    let mut lone = ModelEndpoint::new(0);
    lone.forward(50, &vec![1u8, 1], 100, true);
    lone.forward(300, &vec![2u8], 100, true);
    lone.forward(350, &vec![3u8], 100, true);
    pair.forward_both(350, &vec![3u8], 100, false, true);
    assert_eq!(pair.ep1.queued, lone.queued);
    assert_eq!(pair.ep1.last_good_write_ms, lone.last_good_write_ms);
}

#[test]
fn slow_consumer_observes_gaps() {
    // The concrete fan-out scenario: a source emits a 4096-byte chunk every
    // 500 ms, each byte the chunk's iteration index rendered as a character;
    // the per-endpoint staleness timeout is 100 ms; the consumer reads only
    // every ~2 s. Each read must see a single repeated character, and
    // consecutive observed values must not be sequential integers.
    let mut ep = ModelEndpoint::new(0);
    let timeout_ms: u64 = 100;
    let mut observed: Vec<u8> = Vec::new();
    for i in 0..10u64 {
        let now_ms = i * 500;
        let chunk = chunk_of(b'0' + i as u8, READ_BUFFER_CAPACITY);
        ep.forward(now_ms, &chunk, timeout_ms, true);
        if now_ms > 0 && now_ms % 2000 == 0 {
            let buf = ep.read(100);
            assert_ne!(buf.len(), 0);
            // A read returns part of one chunk: a single repeated value.
            assert!(buf.iter().all(|b| *b == buf[0]));
            observed.push(buf[0]);
        }
    }
    assert!(observed.len() >= 2);
    for w in observed.windows(2) {
        // Chunks were dropped in between: never the immediate successor.
        assert_ne!(w[0] + 1, w[1]);
    }
}
