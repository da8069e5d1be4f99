use rustair::machine::io_trace::{IoTrace, IO_TRACE_IN, IO_TRACE_LIMIT, IO_TRACE_OUT, IO_TRACE_RX_ENQUEUE};

#[test]
fn disabled_trace_records_nothing() {
    let mut trace = IoTrace::new();
    trace.record(IO_TRACE_IN, 0x10, 0x42);
    assert!(trace.snapshot().is_empty());
    assert_eq!(trace.port_activity(0x10), (None, None, 0, 0));
}

#[test]
fn identical_events_collapse_into_one_entry_with_a_repeat_count() {
    let mut trace = IoTrace::new();
    trace.set_enabled(true);
    trace.record(IO_TRACE_IN, 0x10, 0x02);
    trace.record(IO_TRACE_IN, 0x10, 0x02);
    trace.record(IO_TRACE_IN, 0x10, 0x02);
    trace.record(IO_TRACE_OUT, 0x11, b'A');
    trace.record(IO_TRACE_RX_ENQUEUE, 0x11, b'B');
    assert_eq!(
        trace.snapshot(),
        vec![
            (1, IO_TRACE_IN, 0x10, 0x02, 3),
            (2, IO_TRACE_OUT, 0x11, b'A', 1),
            (3, IO_TRACE_RX_ENQUEUE, 0x11, b'B', 1),
        ]
    );
    assert_eq!(trace.port_activity(0x10), (Some(0x02), None, 3, 0));
    assert_eq!(trace.port_activity(0x11), (None, Some(b'A'), 0, 1));
}

#[test]
fn the_log_keeps_only_the_newest_events() {
    let mut trace = IoTrace::new();
    trace.set_enabled(true);
    for i in 0..(IO_TRACE_LIMIT + 10) {
        trace.record(IO_TRACE_OUT, 0x20, (i & 1) as u8);
    }
    let events = trace.snapshot();
    assert_eq!(events.len(), IO_TRACE_LIMIT);
    assert_eq!(events[0].0, 11);
    assert_eq!(events[IO_TRACE_LIMIT - 1].0, (IO_TRACE_LIMIT + 10) as u64);
    trace.clear_events();
    assert!(trace.snapshot().is_empty());
    assert_eq!(trace.port_activity(0x20), (None, None, 0, 0));
    trace.record(IO_TRACE_IN, 0x00, 0x01);
    assert_eq!(trace.snapshot()[0].0, (IO_TRACE_LIMIT + 11) as u64);
}
