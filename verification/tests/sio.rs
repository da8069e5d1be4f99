use rustair::config::{SioBaudRate, SioHardwareConfig, SioRevision, SioStopBits, SioWordFormat};
use rustair::machine::sio::SioPort;

const TWO_MHZ: u32 = 2_000_000;

fn config(revision: SioRevision) -> SioHardwareConfig {
    SioHardwareConfig { revision, ..SioHardwareConfig::default() }
}

#[test]
fn rev0_and_rev1_ready_flags_have_historical_positions_and_polarity() {
    let mut rev0 = SioPort::new(config(SioRevision::Rev0));
    let mut rev1 = SioPort::new(config(SioRevision::Rev1));
    assert_eq!(rev0.status(), 0x02, "Rev0 TBMT is D1 active high");
    assert_eq!(rev1.status(), 0x01, "Rev1 not-RDA is D0 high while empty; D7 low means TX ready");

    rev0.debugger_inject_received_character(b'R');
    rev1.debugger_inject_received_character(b'R');
    assert_eq!(rev0.status() & 0x20, 0x20, "Rev0 RDA is D5 active high");
    assert_eq!(rev1.status() & 0x01, 0x00, "Rev1 receive-ready is D0 active low");

    rev0.write_data(b'A');
    rev1.write_data(b'A');
    // Idle shift register consumes holding data immediately, so TBMT is
    // already ready again while the character itself remains in flight.
    assert_eq!(rev0.status() & 0x02, 0x02);
    assert_eq!(rev1.status() & 0x80, 0x00);
    rev0.write_data(b'B');
    rev1.write_data(b'B');
    assert_eq!(rev0.status() & 0x02, 0x00, "second byte occupies Rev0 holding register");
    assert_eq!(rev1.status() & 0x80, 0x80, "second byte makes Rev1 active-low TX ready false");
}

#[test]
fn com2502_overrun_overwrites_old_unread_character_with_new_character() {
    let mut p = SioPort::new(config(SioRevision::Rev1));
    p.debugger_inject_received_character(b'A');
    p.debugger_inject_received_character(b'B');
    assert_eq!(p.status() & 0x10, 0x10);
    assert_eq!(p.read_data(), b'B', "COM2502 transfers the new shift-register character into the holding register");
    assert_eq!(p.status() & 0x01, 0x01, "data read resets RDA");
    assert_eq!(p.status() & 0x10, 0x10, "RDAR does not fabricate an error clear");
    p.debugger_inject_received_character(b'C');
    assert_eq!(p.status() & 0x10, 0x00, "next reception with RDA previously low refreshes overrun false");
}

#[test]
fn double_buffered_transmitter_returns_tbmt_before_character_finishes() {
    let mut c = config(SioRevision::Rev1);
    c.baud = SioBaudRate::try_new(9_600).unwrap();
    c.format = SioWordFormat { stop_bits: SioStopBits::One, ..SioWordFormat::default() };
    let mut p = SioPort::new(c);
    p.write_data(b'A');
    assert_eq!(p.status() & 0x80, 0, "holding register is already empty after idle promotion");
    assert_eq!(p.endpoint_tx_front(), None);
    p.write_data(b'B');
    assert_eq!(p.status() & 0x80, 0x80, "holding register now contains the next byte");

    p.advance_t_states(2_083, TWO_MHZ);
    assert_eq!(p.endpoint_tx_front(), None);
    p.advance_t_states(1, TWO_MHZ);
    assert_eq!(p.endpoint_tx_front(), Some(b'A'));
    assert_eq!(p.status() & 0x80, 0, "B promoted at the exact A frame boundary");
}

#[test]
fn unread_rda_does_not_stop_receiver_shift_and_real_overrun_occurs_after_next_frame() {
    let mut p = SioPort::new(config(SioRevision::Rev1));
    p.queue_received_character(b'A');
    p.advance_t_states(200_000, TWO_MHZ); // 110 baud, 8N2 => 100 ms
    assert!(!p.receive_line_idle() || p.rx_full());
    if !p.receive_line_idle() {
        p.advance_t_states(1, TWO_MHZ);
    }
    assert!(p.rx_full());
    assert!(p.receive_line_idle());
    p.queue_received_character(b'B');
    p.advance_t_states(200_001, TWO_MHZ);
    assert_eq!(p.status() & 0x10, 0x10);
    assert_eq!(p.peek_data(), b'B');
}

#[test]
fn seven_bit_format_masks_the_received_character() {
    let mut c = config(SioRevision::Rev0);
    c.format = SioWordFormat {
        data_bits: rustair::config::SioDataBits::Seven,
        ..SioWordFormat::default()
    };
    let mut p = SioPort::new(c);
    p.debugger_inject_received_character(0xc1);
    assert_eq!(p.peek_data(), 0x41);
    assert_eq!(p.receive_len(), 1);
}

#[test]
fn debugger_tx_completion_drains_wire_then_shift_then_holding() {
    let mut p = SioPort::new(config(SioRevision::Rev1));
    p.write_data(b'X');
    p.write_data(b'Y');
    assert!(p.endpoint_tx_pending_or_hardware_busy());
    assert_eq!(p.debugger_complete_one_tx(), Some(b'X'));
    assert_eq!(p.debugger_complete_one_tx(), Some(b'Y'));
    assert_eq!(p.debugger_complete_one_tx(), None);
    assert!(!p.endpoint_tx_pending_or_hardware_busy());
}

#[test]
fn clear_restores_power_up_state_but_keeps_straps() {
    let mut p = SioPort::new(config(SioRevision::Rev0));
    p.debugger_inject_received_character(b'Q');
    p.write_data(b'W');
    p.clear();
    assert_eq!(p.config(), config(SioRevision::Rev0));
    assert_eq!(p.status(), 0x02);
    assert!(!p.rx_full());
    assert!(p.tx_buffer_empty());
    p.configure(config(SioRevision::Rev1));
    assert_eq!(p.status(), 0x01);
}

#[test]
fn a_110_baud_8n2_frame_reaches_the_wire_after_exactly_200000_t_states() {
    let mut p = SioPort::new(config(SioRevision::Rev1));
    p.write_data(b'Z');
    p.advance_t_states(199_999, TWO_MHZ);
    assert_eq!(p.endpoint_tx_front(), None);
    p.advance_t_states(1, TWO_MHZ);
    assert_eq!(p.endpoint_tx_complete(), Some(b'Z'));
    assert_eq!(p.endpoint_tx_complete(), None);
}
