use rustair::machine::two_sio::{TwoSioBaudTap, TwoSioPort};

const TWO_MHZ: u32 = 2_000_000;

#[test]
fn modem_control_pins_follow_mc6850_transmitter_control_bits() {
    let mut port = TwoSioPort::new(TwoSioBaudTap::Baud110);
    port.write_control(0x11);
    assert!(!port.rts_high());
    assert!(!port.break_active());
    assert!(!port.cts_high());
    assert!(!port.dcd_high());

    port.write_control(0x51);
    assert!(
        port.rts_high(),
        "MITS 121-octal/51h reader-control value must drive RTS physically HIGH"
    );
    assert!(!port.break_active());

    port.write_control(0x71);
    assert!(!port.rts_high(), "BREAK encoding drives RTS LOW");
    assert!(port.break_active());
}

#[test]
fn external_cts_and_dcd_levels_reach_the_acia_status_logic() {
    let mut port = TwoSioPort::new(TwoSioBaudTap::Baud9600);
    port.write_control(0x95); // RX IRQ enabled
    port.set_cts_high(true);
    assert!(port.cts_high());
    assert_eq!(port.peek_status() & 0x0a, 0x08);
    port.set_cts_high(false);
    assert_eq!(port.peek_status() & 0x08, 0);

    port.set_dcd_high(true);
    assert!(port.dcd_high());
    assert_eq!(port.peek_status() & 0x84, 0x84);
    port.set_dcd_high(false);
    assert!(!port.dcd_high());
    assert_eq!(
        port.peek_status() & 0x84,
        0x84,
        "DCD transition remains latched until status/data clear sequence"
    );
    let _ = port.read_status();
    let _ = port.read_data();
    assert_eq!(port.peek_status() & 0x84, 0);
}

#[test]
fn tx_tdr_waits_for_next_bit_clock_then_tdre_returns_before_character_finishes() {
    let mut port = TwoSioPort::new(TwoSioBaudTap::Baud9600);
    port.write_control(0x15); // 8N1, /16 => 9600 baud
    port.write_data(b'A');
    assert_eq!(port.peek_status() & 0x02, 0);
    assert_eq!(port.endpoint_tx_front(), None);

    port.advance_t_states(208, TWO_MHZ);
    assert_eq!(port.peek_status() & 0x02, 0);
    port.advance_t_states(1, TWO_MHZ);
    assert_eq!(port.peek_status() & 0x02, 0x02);
    assert_eq!(port.endpoint_tx_front(), None);

    port.advance_t_states(2_083, TWO_MHZ);
    assert_eq!(port.endpoint_tx_front(), Some(b'A'));
}

#[test]
fn scheduler_deadline_skips_intermediate_divide_16_tap_pulses() {
    let mut port = TwoSioPort::new(TwoSioBaudTap::Baud9600);
    assert_eq!(port.t_states_until_next_clock_boundary(TWO_MHZ), None);
    port.write_control(0x15); // /16
    port.write_data(b'A');
    assert_eq!(port.t_states_until_next_clock_boundary(TWO_MHZ), Some(209));
    port.advance_t_states(208, TWO_MHZ);
    assert_eq!(port.t_states_until_next_clock_boundary(TWO_MHZ), Some(1));
    port.advance_t_states(1, TWO_MHZ);
    assert_eq!(port.t_states_until_next_clock_boundary(TWO_MHZ), Some(208));
}

#[test]
fn scheduler_deadline_tracks_divide_64_effective_boundary() {
    let mut port = TwoSioPort::new(TwoSioBaudTap::Baud9600);
    port.write_control(0x16); // /64
    port.write_data(b'A');
    assert_eq!(port.t_states_until_next_clock_boundary(TWO_MHZ), Some(834));
    port.advance_t_states(833, TWO_MHZ);
    assert_eq!(port.t_states_until_next_clock_boundary(TWO_MHZ), Some(1));
}

#[test]
fn idle_port_has_no_scheduler_deadline_but_external_phase_keeps_running() {
    let mut port = TwoSioPort::new(TwoSioBaudTap::Baud9600);
    assert!(port.timing_is_quiet());
    assert_eq!(port.t_states_until_next_clock_boundary(TWO_MHZ), None);
    port.advance_t_states(7, TWO_MHZ);
    let phase = port.tap_phase_numerator();
    assert_ne!(phase, 0);
    assert_eq!(port.t_states_until_next_clock_boundary(TWO_MHZ), None);
    port.write_data(b'A');
    assert!(port.t_states_until_next_clock_boundary(TWO_MHZ).is_some());
}

#[test]
fn acia_master_reset_does_not_reset_the_external_baud_generator_phase() {
    let mut port = TwoSioPort::new(TwoSioBaudTap::Baud9600);
    port.advance_t_states(7, TWO_MHZ);
    let phase = port.tap_phase_numerator();
    port.write_control(0x03);
    assert_eq!(port.tap_phase_numerator(), phase);
    assert_eq!(port.divider_phase(), 0);
    assert_eq!(port.t_states_until_next_clock_boundary(TWO_MHZ), None);
}

#[test]
fn changing_divider_restarts_only_the_internal_divide_epoch() {
    let mut port = TwoSioPort::new(TwoSioBaudTap::Baud9600);
    port.write_control(0x15); // /16
    port.write_data(b'A');
    port.advance_t_states(100, TWO_MHZ);
    assert_ne!(port.divider_phase(), 0);
    let external_phase = port.tap_phase_numerator();
    port.write_control(0x16); // /64
    assert_eq!(port.divider_phase(), 0);
    assert_eq!(port.tap_phase_numerator(), external_phase);
}

#[test]
fn endpoint_drain_does_not_control_acia_tdre_or_shift_completion() {
    let mut port = TwoSioPort::new(TwoSioBaudTap::Baud9600);
    port.write_control(0x35); // 8N1, TX-empty IRQ, /16
    port.write_data(b'A');
    port.advance_t_states(2_292, TWO_MHZ);
    assert_eq!(port.endpoint_tx_front(), Some(b'A'));
    assert!(
        port.interrupt_request(),
        "TDR is empty regardless of endpoint presentation delay"
    );

    port.advance_t_states(20_000, TWO_MHZ);
    assert_eq!(port.endpoint_tx_front(), Some(b'A'));
    assert!(port.interrupt_request());
    assert_eq!(port.endpoint_tx_complete(), Some(b'A'));
}

#[test]
fn break_overrides_wire_without_freezing_tdr_tsr_or_tdre() {
    let mut port = TwoSioPort::new(TwoSioBaudTap::Baud9600);
    port.write_control(0x75); // /16, 8N1, CR6:CR5=11 BREAK
    port.write_data(b'B');
    assert_eq!(
        port.peek_status() & 0x02,
        0,
        "TDR is full before the first transmitter boundary"
    );

    port.advance_t_states(209, TWO_MHZ);
    assert_eq!(
        port.peek_status() & 0x02,
        0x02,
        "BREAK must not inhibit the normal TDR->TSR transfer"
    );
    assert!(port.endpoint_tx_pending_or_hardware_busy());

    port.advance_t_states(2_100, TWO_MHZ);
    assert!(
        !port.endpoint_tx_pending_or_hardware_busy(),
        "TSR continues clocking internally while BREAK holds TxD spacing"
    );
    assert_eq!(
        port.endpoint_tx_front(),
        None,
        "a frame transmitted under BREAK is not a valid downstream byte"
    );
}

#[test]
fn break_asserted_mid_frame_irreversibly_corrupts_only_that_frame() {
    let mut port = TwoSioPort::new(TwoSioBaudTap::Baud9600);
    port.write_control(0x15); // /16, 8N1, normal TxD
    port.write_data(b'A');
    port.advance_t_states(209, TWO_MHZ); // TDR -> TSR, frame begins
    assert_eq!(port.peek_status() & 0x02, 0x02);

    port.advance_t_states(417, TWO_MHZ); // part-way through the frame
    port.write_control(0x75); // BREAK immediately overrides TxD
    assert!(port.break_active());
    port.write_control(0x15); // release before the nominal frame completes
    assert!(!port.break_active());

    port.advance_t_states(2_000, TWO_MHZ);
    assert_eq!(
        port.endpoint_tx_front(),
        None,
        "releasing BREAK cannot repair an already corrupted frame"
    );

    port.write_data(b'Z');
    port.advance_t_states(2_300, TWO_MHZ);
    assert_eq!(
        port.endpoint_tx_front(),
        Some(b'Z'),
        "the next complete post-BREAK frame is valid again"
    );
}

#[test]
fn receive_character_reaches_rdr_only_after_full_card_timed_frame() {
    let mut port = TwoSioPort::new(TwoSioBaudTap::Baud110);
    port.write_control(0x95); // RX IRQ, 8N1, /16 => 110 baud
    port.queue_received_character(b'R');
    assert!(!port.receive_line_idle());
    assert_eq!(port.receive_len(), 1);
    assert_eq!(port.peek_status() & 0x81, 0);

    port.advance_t_states(181_818, TWO_MHZ);
    assert_eq!(port.peek_status() & 0x81, 0);
    assert!(!port.receive_line_idle());
    port.advance_t_states(1, TWO_MHZ);
    assert!(port.receive_line_idle());
    assert_eq!(port.peek_status() & 0x81, 0x81);
    assert_eq!(port.receive_len(), 1);
    assert_eq!(port.read_data(), b'R');
    assert_eq!(port.receive_len(), 0);
}

#[test]
fn held_receive_break_produces_zero_with_framing_error_and_can_overrun() {
    let mut port = TwoSioPort::new(TwoSioBaudTap::Baud110);
    port.write_control(0x15); // /16, 8N1 => 110 baud
    port.set_receive_break(true);
    assert!(!port.receive_line_idle());

    port.advance_t_states(181_819, TWO_MHZ);
    assert_eq!(port.peek_data(), 0x00);
    assert_eq!(
        port.peek_status() & 0x11,
        0x11,
        "BREAK frame reaches RDR as zero with FE"
    );
    assert!(
        !port.receive_line_idle(),
        "held BREAK immediately starts the next frame"
    );

    port.advance_t_states(181_819, TWO_MHZ);
    assert_eq!(
        port.peek_status() & 0x21,
        0x01,
        "MC6850 overrun remains delayed while old RDR is unread"
    );
    assert_eq!(port.read_data(), 0x00);
    assert_eq!(
        port.peek_status() & 0x21,
        0x21,
        "reading the valid BREAK character exposes delayed OVRN"
    );

    port.set_receive_break(false);
    assert!(port.receive_line_idle());
}

#[test]
fn short_receive_break_release_aborts_incomplete_break_frame() {
    let mut port = TwoSioPort::new(TwoSioBaudTap::Baud110);
    port.write_control(0x15);
    port.set_receive_break(true);
    port.advance_t_states(40_000, TWO_MHZ);
    port.set_receive_break(false);
    assert!(port.receive_line_idle());
    assert_eq!(port.peek_status() & 0x11, 0);
}

#[test]
fn receive_path_does_not_hide_an_unbounded_pre_acia_queue() {
    let mut port = TwoSioPort::new(TwoSioBaudTap::Baud110);
    port.write_control(0x15);
    port.queue_received_character(b'A');
    port.queue_received_character(b'B');

    port.advance_t_states(181_819, TWO_MHZ);
    assert!(port.receive_line_idle());
    assert_eq!(port.read_data(), b'A');
    assert_eq!(port.peek_status() & 0x01, 0);
}

#[test]
fn unread_rdr_does_not_block_next_raw_physical_frame_and_can_overrun() {
    let mut port = TwoSioPort::new(TwoSioBaudTap::Baud110);
    port.write_control(0x15);
    port.queue_received_character(b'A');
    port.advance_t_states(181_819, TWO_MHZ);
    assert_eq!(port.peek_status() & 0x01, 0x01);
    assert!(
        port.receive_line_idle(),
        "RDRF must not masquerade as raw line busy"
    );

    // Exercise the card primitive directly: a real source can begin its next
    // frame even while software has left the previous RDR unread.
    port.queue_received_character(b'B');
    port.advance_t_states(181_819, TWO_MHZ);
    assert_eq!(
        port.peek_status() & 0x21,
        0x01,
        "overrun remains latent until valid RDR is read"
    );
    assert_eq!(port.read_data(), b'A');
    assert_eq!(port.peek_status() & 0x21, 0x21);
}

#[test]
fn debugger_injection_bypasses_wire_time_but_keeps_finite_rdr() {
    let mut port = TwoSioPort::new(TwoSioBaudTap::Baud110);
    port.write_control(0x95);
    port.debugger_inject_received_character(b'A');
    assert_eq!(port.peek_status() & 0x81, 0x81);
    port.debugger_inject_received_character(b'B');
    assert_eq!(port.read_data(), b'A');
    assert_eq!(port.peek_status() & 0x21, 0x21);
}

#[test]
fn debugger_tx_completion_does_not_leave_duplicate_endpoint_byte() {
    let mut port = TwoSioPort::new(TwoSioBaudTap::Baud9600);
    port.write_control(0x15);
    port.write_data(b'D');
    assert_eq!(port.debugger_complete_one_tx(), Some(b'D'));
    assert_eq!(port.endpoint_tx_front(), None);
    assert!(!port.endpoint_tx_pending_or_hardware_busy());
}

#[test]
fn divide_64_preserves_fractional_27_point_5_baud_exactly() {
    let mut port = TwoSioPort::new(TwoSioBaudTap::Baud110);
    port.write_control(0x16); // 8N1, /64 => 27.5 baud
    port.write_data(b'Z');

    port.advance_t_states(72_727, TWO_MHZ);
    assert_eq!(port.peek_status() & 0x02, 0);
    port.advance_t_states(1, TWO_MHZ);
    assert_eq!(port.peek_status() & 0x02, 0x02);
}
