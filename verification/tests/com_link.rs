use rustair::io::com_link::{ComLink, ComTransportState, ComWorkerEvent, RX_QUEUE_LIMIT};

#[test]
fn opened_rx_and_modem_events_update_the_link() {
    let mut link = ComLink::default();
    link.begin_opening();
    assert_eq!(link.state(), ComTransportState::Opening);
    link.apply_event(ComWorkerEvent::Opened, "COM3");
    assert_eq!(link.state(), ComTransportState::Open);
    link.apply_event(ComWorkerEvent::Rx(vec![b'O', b'K']), "COM3");
    assert_eq!(link.rx_pending(), 2);
    assert_eq!(link.rx_bytes(), 2);
    assert_eq!(link.pop_rx(), Some(b'O'));
    assert_eq!(link.pop_rx(), Some(b'K'));
    assert_eq!(link.pop_rx(), None);
    link.apply_event(ComWorkerEvent::ModemPins { cts_asserted: true, dcd_asserted: false }, "COM3");
    assert_eq!(link.modem_pins_asserted(), Some((true, false)));
}

#[test]
fn an_error_sticks_through_a_later_close() {
    let mut link = ComLink::new();
    link.begin_opening();
    link.apply_event(ComWorkerEvent::Error("Read from COM3 failed".to_string()), "COM3");
    assert_eq!(link.state(), ComTransportState::Error);
    link.apply_event(ComWorkerEvent::Closed, "COM3");
    assert_eq!(link.state(), ComTransportState::Error);
    link.events_disconnected();
    assert_eq!(link.state(), ComTransportState::Error);
    assert_eq!(link.last_error().as_deref(), Some("Read from COM3 failed"));
    link.restart_on_next_poll();
    assert!(link.last_error().is_none());
    assert!(link.needs_restart(true));
    link.begin_opening();
    assert!(!link.needs_restart(true));
    assert!(link.needs_restart(false));
    link.apply_event(ComWorkerEvent::Closed, "COM3");
    assert_eq!(link.state(), ComTransportState::Closed);
}

#[test]
fn a_full_receive_queue_counts_dropped_bytes() {
    let mut link = ComLink::new();
    let burst = vec![0x55u8; RX_QUEUE_LIMIT + 3];
    link.apply_event(ComWorkerEvent::Rx(burst), "COM1");
    assert_eq!(link.rx_pending(), RX_QUEUE_LIMIT);
    assert_eq!(link.dropped_rx_bytes(), 3);
    assert_eq!(link.rx_bytes(), (RX_QUEUE_LIMIT + 3) as u64);
    link.clear_rx();
    assert_eq!(link.rx_pending(), 0);
}

#[test]
fn transmit_and_break_accounting_follow_the_channel_outcome() {
    let mut link = ComLink::new();
    link.set_trace_enabled(true);
    link.note_tx(b'A', "COM2", true);
    link.note_tx(b'B', "COM2", false);
    assert_eq!(link.tx_bytes(), 1);
    assert_eq!(link.dropped_tx_bytes(), 1);
    link.apply_event(ComWorkerEvent::Rx(vec![b'Z']), "COM2");
    assert_eq!(
        link.trace_snapshot(),
        vec![(1, false, b'A', "COM2".to_string()), (2, true, b'Z', "COM2".to_string())]
    );
    link.clear_trace();
    assert!(link.trace_snapshot().is_empty());

    assert!(link.break_command_needed(true));
    link.note_break(true, true);
    assert!(!link.break_command_needed(true));
    assert!(link.break_command_needed(false));
    link.note_break(false, false);
    assert!(link.break_command_needed(true));
    assert!(link.break_command_needed(false));
}

#[test]
fn disabling_and_missing_port_set_the_state_and_message() {
    let mut link = ComLink::new();
    link.require_port();
    assert_eq!(link.state(), ComTransportState::Closed);
    assert_eq!(
        link.last_error().as_deref(),
        Some("Select a COM/serial port before opening the endpoint")
    );
    link.disable();
    assert_eq!(link.state(), ComTransportState::Disabled);
    link.apply_event(ComWorkerEvent::Rx(vec![1, 2, 3]), "COM1");
    link.worker_stopped();
    assert_eq!(link.rx_pending(), 0);
    assert_eq!(link.modem_pins_asserted(), None);
    link.worker_failed("Could not start COM worker".to_string());
    assert_eq!(link.state(), ComTransportState::Error);
}
