use rustair::mc6850::{Mc6850, Parity, WordFormat};

#[test]
fn control_register_decodes_motorola_clock_word_and_modem_modes() {
    let mut acia = Mc6850::default();
    acia.write_control(0b1001_0101); // RX IRQ, 8N1, divide 16
    assert_eq!(acia.clock_divider(), Some(16));
    assert_eq!(
        acia.word_format(),
        WordFormat { data_bits: 8, parity: Parity::NoParity, stop_bits: 1 }
    );
    assert!(acia.receive_interrupt_enabled());
    assert!(!acia.transmit_interrupt_enabled());
    assert!(acia.rts_asserted());
    assert!(!acia.break_active());

    acia.write_control(0x60);
    assert!(acia.break_active());
    assert!(acia.rts_asserted());
    assert!(!acia.transmit_interrupt_enabled());
}

#[test]
fn tdr_and_shift_register_are_distinct_and_tdre_tracks_only_tdr() {
    let mut acia = Mc6850::default();
    assert_eq!(acia.peek_status() & 0x02, 0x02);

    acia.write_data(b'A');
    assert_eq!(acia.peek_status() & 0x02, 0x00);
    assert_eq!(acia.tx_shift_front(), None);

    assert!(acia.transfer_tdr_to_shift_if_idle());
    assert_eq!(acia.tx_shift_front(), Some(b'A'));
    assert_eq!(acia.peek_status() & 0x02, 0x02);

    acia.write_data(b'B');
    assert_eq!(acia.peek_status() & 0x02, 0x00);
    assert!(!acia.transfer_tdr_to_shift_if_idle());
    assert_eq!(acia.complete_tx_shift(), Some(b'A'));
    assert_eq!(acia.tx_shift_front(), Some(b'B'));
    assert_eq!(acia.peek_status() & 0x02, 0x02);
}

#[test]
fn receive_register_is_one_byte_and_rdrf_clears_on_read() {
    let mut acia = Mc6850::default();
    acia.write_control(0x14); // 8N1, divide 1
    acia.receive_character(0x5a, false, false);
    assert_eq!(acia.peek_status() & 0x01, 0x01);
    assert_eq!(acia.peek_data(), 0x5a);
    assert_eq!(acia.read_data(), 0x5a);
    assert_eq!(acia.peek_status() & 0x01, 0x00);
}

#[test]
fn overrun_is_delayed_until_valid_character_is_read_then_requires_data_read_to_clear() {
    let mut acia = Mc6850::default();
    acia.write_control(0x14);
    acia.receive_character(b'A', false, false);
    acia.receive_character(b'B', false, false); // lost in receiver overrun

    assert_eq!(acia.peek_status() & 0x21, 0x01, "OVRN is latent while A is unread");
    assert_eq!(acia.read_data(), b'A');
    assert_eq!(acia.peek_status() & 0x21, 0x21, "RDRF stays set when OVRN becomes visible");
    assert_eq!(acia.read_data(), b'A', "second read sees retained RDR contents");
    assert_eq!(acia.peek_status() & 0x21, 0x00);
}

#[test]
fn receive_and_transmit_interrupts_follow_rdrf_tdre_not_endpoint_busy() {
    let mut acia = Mc6850::default();
    acia.write_control(0xa0); // RX IRQ + TX-empty IRQ, divide 1
    assert!(acia.interrupt_request(), "empty TDR requests TX service");

    acia.write_data(b'T');
    assert!(!acia.interrupt_request(), "writing TDR clears TX-empty condition");
    assert!(acia.transfer_tdr_to_shift_if_idle());
    assert!(acia.interrupt_request(), "TDRE returns while TSR is still transmitting");
    assert_eq!(acia.tx_shift_front(), Some(b'T'));

    acia.write_control(0x80); // RX IRQ only
    assert!(!acia.interrupt_request());
    acia.receive_character(b'R', false, false);
    assert!(acia.interrupt_request());
    assert_eq!(acia.read_data(), b'R');
    assert!(!acia.interrupt_request());
}

#[test]
fn cts_high_inhibits_tdre_and_prevents_tdr_transfer() {
    let mut acia = Mc6850::default();
    acia.set_cts_high(true);
    assert_eq!(acia.peek_status() & 0x0a, 0x08);
    acia.write_data(b'X');
    assert!(!acia.transfer_tdr_to_shift_if_idle());
    assert_eq!(acia.tx_shift_front(), None);

    acia.set_cts_high(false);
    assert!(acia.transfer_tdr_to_shift_if_idle());
    assert_eq!(acia.tx_shift_front(), Some(b'X'));
    assert_eq!(acia.peek_status() & 0x02, 0x02);
}

#[test]
fn framing_and_parity_errors_belong_to_the_current_receive_character() {
    let mut acia = Mc6850::default();
    acia.write_control(0x1c); // 8 odd parity, 1 stop, divide 1
    acia.receive_character(0x33, true, true);
    assert_eq!(acia.peek_status() & 0x51, 0x51);
    acia.read_data();
    assert_eq!(acia.peek_status() & 0x51, 0x00);

    acia.write_control(0x14); // 8N1: parity checking inhibited
    acia.receive_character(0x44, false, true);
    assert_eq!(acia.peek_status() & 0x40, 0x00);
}

#[test]
fn dcd_interrupt_requires_status_then_data_read_to_clear_the_edge_latch() {
    let mut acia = Mc6850::default();
    acia.write_control(0x80);
    acia.set_dcd_high(true);
    assert_eq!(acia.peek_status() & 0x84, 0x84);
    assert!(acia.interrupt_request());

    acia.set_dcd_high(false);
    assert_eq!(acia.peek_status() & 0x84, 0x84, "DCD status remains latched after carrier returns");
    let _ = acia.read_status();
    assert!(acia.interrupt_request());
    let _ = acia.read_data();
    assert_eq!(acia.peek_status() & 0x84, 0x00);
    assert!(!acia.interrupt_request());
}

#[test]
fn master_reset_value_clears_status_but_keeps_upper_control_bits_and_cts() {
    let mut acia = Mc6850::default();
    acia.set_cts_high(true);
    acia.write_control(0xbf); // upper control bits plus CR1:CR0 = 11, master reset
    assert_eq!(acia.control(), 0xbf);
    assert_eq!(acia.clock_divider(), None);
    assert_eq!(acia.peek_status() & 0x08, 0x08);
    assert_eq!(acia.peek_status() & 0x71, 0x00);
}
