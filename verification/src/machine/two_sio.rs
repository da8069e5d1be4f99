//! One MC6850 channel of the MITS 88-2SIO serial board, with the board's
//! free-running baud generator and the timed serial frames on its wires.

use std::collections::VecDeque;
use vstd::prelude::*;
use crate::mc6850::{
    Mc6850, Mc6850View, Parity, spec_break_active, spec_complete_tx_shift, spec_frame_bits,
    spec_interrupt_request, spec_read_data, spec_read_status, spec_receive_character,
    spec_rts_asserted, spec_status, spec_transfer, spec_word_format, spec_write_control,
};

verus! {

/// Physical baud-generator tap selected by the 88-2SIO board strap.
#[derive(Clone, Copy, Debug, PartialEq, Eq, Structural)]
pub enum TwoSioBaudTap {
    Baud110,
    Baud150,
    Baud300,
    Baud1200,
    Baud1800,
    Baud2400,
    Baud4800,
    Baud9600,
}

pub open spec fn spec_baud(tap: TwoSioBaudTap) -> u32 {
    match tap {
        TwoSioBaudTap::Baud110 => 110,
        TwoSioBaudTap::Baud150 => 150,
        TwoSioBaudTap::Baud300 => 300,
        TwoSioBaudTap::Baud1200 => 1_200,
        TwoSioBaudTap::Baud1800 => 1_800,
        TwoSioBaudTap::Baud2400 => 2_400,
        TwoSioBaudTap::Baud4800 => 4_800,
        TwoSioBaudTap::Baud9600 => 9_600,
    }
}

impl TwoSioBaudTap {
    pub fn baud(self) -> (r: u32)
        ensures
            r == spec_baud(self),
            110 <= r <= 9600,
    {
        match self {
            TwoSioBaudTap::Baud110 => 110,
            TwoSioBaudTap::Baud150 => 150,
            TwoSioBaudTap::Baud300 => 300,
            TwoSioBaudTap::Baud1200 => 1_200,
            TwoSioBaudTap::Baud1800 => 1_800,
            TwoSioBaudTap::Baud2400 => 2_400,
            TwoSioBaudTap::Baud4800 => 4_800,
            TwoSioBaudTap::Baud9600 => 9_600,
        }
    }
}

/// The channel state as mathematical values.
pub struct TwoSioView {
    pub acia: Mc6850View,
    pub control: u8,
    pub baud_tap: TwoSioBaudTap,
    pub tap_phase_numerator: u64,
    pub divider_phase: u8,
    pub tx_bits_remaining: u8,
    pub tx_frame_corrupted_by_break: bool,
    pub wire_tx: Seq<u8>,
    pub rx_shift: Option<(u8, bool, bool)>,
    pub rx_bits_remaining: u8,
    pub rx_break_active: bool,
    pub rx_shift_from_break: bool,
}

/// One of the two independent MC6850 channels on the MITS 88-2SIO.
///
/// `wire_tx` is downstream of the ACIA: a byte reaches it only after the
/// transmit shift register has clocked out a complete frame. `rx_shift` is
/// a character still travelling on the receive line, not yet in the RDR.
pub struct TwoSioPort {
    acia: Mc6850,
    control: u8,
    baud_tap: TwoSioBaudTap,
    tap_phase_numerator: u64,
    divider_phase: u8,
    tx_bits_remaining: u8,
    tx_frame_corrupted_by_break: bool,
    wire_tx: VecDeque<u8>,
    rx_shift: Option<(u8, bool, bool)>,
    rx_bits_remaining: u8,
    rx_break_active: bool,
    rx_shift_from_break: bool,
}

impl View for TwoSioPort {
    type V = TwoSioView;

    closed spec fn view(&self) -> TwoSioView {
        TwoSioView {
            acia: self.acia@,
            control: self.control,
            baud_tap: self.baud_tap,
            tap_phase_numerator: self.tap_phase_numerator,
            divider_phase: self.divider_phase,
            tx_bits_remaining: self.tx_bits_remaining,
            tx_frame_corrupted_by_break: self.tx_frame_corrupted_by_break,
            wire_tx: self.wire_tx@,
            rx_shift: self.rx_shift,
            rx_bits_remaining: self.rx_bits_remaining,
            rx_break_active: self.rx_break_active,
            rx_shift_from_break: self.rx_shift_from_break,
        }
    }
}

/// A freshly installed (or reset) channel on the given baud tap.
pub open spec fn spec_new_port(tap: TwoSioBaudTap) -> TwoSioView {
    TwoSioView {
        acia: crate::mc6850::spec_power_on(),
        control: 0,
        baud_tap: tap,
        tap_phase_numerator: 0,
        divider_phase: 0,
        tx_bits_remaining: 0,
        tx_frame_corrupted_by_break: false,
        wire_tx: Seq::empty(),
        rx_shift: None,
        rx_bits_remaining: 0,
        rx_break_active: false,
        rx_shift_from_break: false,
    }
}

/// The MC6850 internal divider selected by CR1:CR0 (`None` = master reset).
pub open spec fn spec_divider(control: u8) -> Option<u8> {
    if control & 0x03 == 0 {
        Some(1u8)
    } else if control & 0x03 == 1 {
        Some(16u8)
    } else if control & 0x03 == 2 {
        Some(64u8)
    } else {
        None
    }
}

/// A held BREAK (continuous space) has a low parity bit, which is wrong only
/// in odd-parity formats.
pub open spec fn spec_break_parity_error(v: TwoSioView) -> bool {
    spec_word_format(v.acia.control).parity == Parity::Odd
}

/// A held receive BREAK starts a new all-zero frame whenever the receive
/// line is idle.
pub open spec fn spec_start_break_frame_if_idle(v: TwoSioView) -> TwoSioView {
    if !v.rx_break_active || v.rx_shift is Some {
        v
    } else {
        TwoSioView {
            rx_shift: Some((0u8, true, spec_break_parity_error(v))),
            rx_bits_remaining: spec_frame_bits(v.acia.control),
            rx_shift_from_break: true,
            ..v
        }
    }
}

pub open spec fn spec_set_receive_break(v: TwoSioView, active: bool) -> TwoSioView {
    if v.rx_break_active == active {
        v
    } else {
        let v1 = TwoSioView { rx_break_active: active, ..v };
        if active {
            spec_start_break_frame_if_idle(v1)
        } else if v1.rx_shift_from_break {
            TwoSioView { rx_shift: None, rx_bits_remaining: 0, rx_shift_from_break: false, ..v1 }
        } else {
            v1
        }
    }
}

pub open spec fn spec_port_write_control(v: TwoSioView, value: u8) -> TwoSioView {
    let was_break = spec_break_active(v.acia.control);
    let acia = spec_write_control(v.acia, value);
    let v1 = TwoSioView { control: value, acia, ..v };
    let v2 = if spec_divider(v.control) != spec_divider(value) {
        TwoSioView { divider_phase: 0, ..v1 }
    } else {
        v1
    };
    let v3 = if !was_break && spec_break_active(acia.control) && acia.tx_shift is Some {
        TwoSioView { tx_frame_corrupted_by_break: true, ..v2 }
    } else {
        v2
    };
    if value & 0x03 == 0x03 {
        TwoSioView {
            divider_phase: 0,
            tx_bits_remaining: 0,
            tx_frame_corrupted_by_break: false,
            rx_shift: None,
            rx_bits_remaining: 0,
            rx_shift_from_break: false,
            ..v3
        }
    } else {
        spec_start_break_frame_if_idle(v3)
    }
}

pub open spec fn spec_queue_received_character(v: TwoSioView, value: u8) -> TwoSioView {
    if v.rx_shift is Some || v.rx_break_active {
        v
    } else {
        TwoSioView {
            rx_shift: Some((value, false, false)),
            rx_bits_remaining: spec_frame_bits(v.acia.control),
            rx_shift_from_break: false,
            ..v
        }
    }
}

/// One effective transmitter clock edge.
pub open spec fn spec_transmitter_bit_boundary(v: TwoSioView) -> TwoSioView {
    if v.acia.tx_shift is None {
        let (acia, moved) = spec_transfer(v.acia);
        if moved {
            TwoSioView {
                acia,
                tx_bits_remaining: spec_frame_bits(acia.control),
                tx_frame_corrupted_by_break: spec_break_active(acia.control),
                ..v
            }
        } else {
            v
        }
    } else {
        let v1 = if spec_break_active(v.acia.control) {
            TwoSioView { tx_frame_corrupted_by_break: true, ..v }
        } else {
            v
        };
        if v1.tx_bits_remaining > 1 {
            TwoSioView { tx_bits_remaining: (v1.tx_bits_remaining - 1) as u8, ..v1 }
        } else if v1.tx_bits_remaining == 1 {
            let corrupted = v1.tx_frame_corrupted_by_break;
            let (acia, done) = spec_complete_tx_shift(v1.acia);
            let wire = match done {
                Some(b) => if !corrupted { v1.wire_tx.push(b) } else { v1.wire_tx },
                None => v1.wire_tx,
            };
            if acia.tx_shift is Some {
                TwoSioView {
                    acia,
                    wire_tx: wire,
                    tx_bits_remaining: spec_frame_bits(acia.control),
                    tx_frame_corrupted_by_break: spec_break_active(acia.control),
                    ..v1
                }
            } else {
                TwoSioView {
                    acia,
                    wire_tx: wire,
                    tx_bits_remaining: 0,
                    tx_frame_corrupted_by_break: false,
                    ..v1
                }
            }
        } else {
            v1
        }
    }
}

/// One effective receiver clock edge.
pub open spec fn spec_receiver_bit_boundary(v: TwoSioView) -> TwoSioView {
    match v.rx_shift {
        None => spec_start_break_frame_if_idle(v),
        Some((value, framing_error, parity_error)) => if v.rx_bits_remaining > 1 {
            TwoSioView { rx_bits_remaining: (v.rx_bits_remaining - 1) as u8, ..v }
        } else if v.rx_bits_remaining == 1 {
            let from_break = v.rx_shift_from_break;
            let v1 = TwoSioView {
                rx_bits_remaining: 0,
                rx_shift: None,
                rx_shift_from_break: false,
                ..v
            };
            let v2 = TwoSioView {
                acia: spec_receive_character(
                    v1.acia,
                    value,
                    framing_error || v1.rx_break_active,
                    parity_error || (v1.rx_break_active && spec_break_parity_error(v1)),
                ),
                ..v1
            };
            if from_break || v2.rx_break_active {
                spec_start_break_frame_if_idle(v2)
            } else {
                v2
            }
        } else {
            v
        },
    }
}

/// `n` effective clock edges, each clocking the transmitter then the receiver.
pub open spec fn spec_boundaries(v: TwoSioView, n: nat) -> TwoSioView
    decreases n,
{
    if n == 0 {
        v
    } else {
        spec_boundaries(spec_receiver_bit_boundary(spec_transmitter_bit_boundary(v)), (n - 1) as nat)
    }
}

pub open spec fn sat_add_u64(a: u64, b: u64) -> u64 {
    if a + b > u64::MAX { u64::MAX } else { (a + b) as u64 }
}

pub open spec fn sat_mul_u64(a: u64, b: u64) -> u64 {
    if a * b > u64::MAX { u64::MAX } else { (a * b) as u64 }
}

/// Channel state after `t_states` CPU clock periods at `cpu_clock_hz`: the
/// external tap (16x the strapped rate) free-runs, and the selected MC6850
/// divider passes one effective edge every 1, 16 or 64 tap pulses.
pub open spec fn spec_advance(v: TwoSioView, t_states: u64, cpu_clock_hz: u32) -> TwoSioView {
    if t_states == 0 || cpu_clock_hz == 0 {
        v
    } else {
        let per_t_state = (spec_baud(v.baud_tap) * 16) as u64;
        let total = sat_add_u64(v.tap_phase_numerator, sat_mul_u64(t_states, per_t_state));
        let pulses = total / (cpu_clock_hz as u64);
        let v1 = TwoSioView { tap_phase_numerator: (total % (cpu_clock_hz as u64)) as u64, ..v };
        match spec_divider(v.control) {
            None => TwoSioView { divider_phase: 0, ..v1 },
            Some(divider) => {
                let divided = sat_add_u64(v.divider_phase as u64, pulses);
                spec_boundaries(
                    TwoSioView { divider_phase: (divided % (divider as u64)) as u8, ..v1 },
                    (divided / (divider as u64)) as nat,
                )
            },
        }
    }
}

/// No character is moving on either wire and the transmitter is idle.
pub open spec fn spec_timing_is_quiet(v: TwoSioView) -> bool {
    v.rx_shift is None && !v.rx_break_active && !(v.acia.tdr is Some || v.acia.tx_shift is Some)
}

fn sat_mul(a: u64, b: u64) -> (r: u64)
    ensures
        r == sat_mul_u64(a, b),
{
    match a.checked_mul(b) {
        Some(p) => p,
        None => u64::MAX,
    }
}

impl TwoSioPort {
    pub fn new(baud_tap: TwoSioBaudTap) -> (r: Self)
        ensures
            r@ == spec_new_port(baud_tap),
    {
        let r = TwoSioPort {
            acia: Mc6850::new(),
            control: 0,
            baud_tap,
            tap_phase_numerator: 0,
            divider_phase: 0,
            tx_bits_remaining: 0,
            tx_frame_corrupted_by_break: false,
            wire_tx: VecDeque::new(),
            rx_shift: None,
            rx_bits_remaining: 0,
            rx_break_active: false,
            rx_shift_from_break: false,
        };
        assert(r@.wire_tx =~= Seq::<u8>::empty());
        r
    }

    pub fn reset(&mut self)
        ensures
            final(self)@ == spec_new_port(old(self)@.baud_tap),
    {
        let baud_tap = self.baud_tap;
        *self = TwoSioPort::new(baud_tap);
    }

    pub fn tap_phase_numerator(&self) -> (r: u64)
        ensures
            r == self@.tap_phase_numerator,
    {
        self.tap_phase_numerator
    }

    pub fn divider_phase(&self) -> (r: u8)
        ensures
            r == self@.divider_phase,
    {
        self.divider_phase
    }

    pub fn read_status(&mut self) -> (r: u8)
        ensures
            (final(self)@.acia, r) == spec_read_status(old(self)@.acia),
            final(self)@ == (TwoSioView { acia: final(self)@.acia, ..old(self)@ }),
    {
        self.acia.read_status()
    }

    pub fn peek_status(&self) -> (r: u8)
        ensures
            r == spec_status(self@.acia),
    {
        self.acia.peek_status()
    }

    pub fn read_data(&mut self) -> (r: u8)
        ensures
            r == old(self)@.acia.rdr,
            final(self)@ == (TwoSioView { acia: spec_read_data(old(self)@.acia), ..old(self)@ }),
    {
        self.acia.read_data()
    }

    pub fn peek_data(&self) -> (r: u8)
        ensures
            r == self@.acia.rdr,
    {
        self.acia.peek_data()
    }

    pub fn interrupt_request(&self) -> (r: bool)
        ensures
            r == spec_interrupt_request(self@.acia),
    {
        self.acia.interrupt_request()
    }

    /// Physical level of the channel's RTS pin.
    pub fn rts_high(&self) -> (r: bool)
        ensures
            r == !spec_rts_asserted(self@.acia.control),
    {
        self.acia.rts_high()
    }

    pub fn break_active(&self) -> (r: bool)
        ensures
            r == spec_break_active(self@.acia.control),
    {
        self.acia.break_active()
    }

    pub fn cts_high(&self) -> (r: bool)
        ensures
            r == self@.acia.cts_high,
    {
        self.acia.cts_high()
    }

    pub fn dcd_high(&self) -> (r: bool)
        ensures
            r == self@.acia.dcd_input_high,
    {
        self.acia.dcd_high()
    }

    pub fn set_cts_high(&mut self, high: bool)
        ensures
            final(self)@ == (TwoSioView {
                acia: Mc6850View { cts_high: high, ..old(self)@.acia },
                ..old(self)@
            }),
    {
        self.acia.set_cts_high(high);
    }

    pub fn set_dcd_high(&mut self, high: bool)
        ensures
            final(self)@ == (TwoSioView { acia: final(self)@.acia, ..old(self)@ }),
            final(self)@.acia == (if high && !old(self)@.acia.dcd_input_high {
                Mc6850View {
                    dcd_input_high: high,
                    dcd_status_latched: true,
                    dcd_irq_pending: true,
                    ..old(self)@.acia
                }
            } else {
                Mc6850View { dcd_input_high: high, ..old(self)@.acia }
            }),
    {
        self.acia.set_dcd_high(high);
    }

    /// Host-facing pending receive depth: the RDR plus a character still on
    /// the receive line.
    pub fn receive_len(&self) -> (r: usize)
        ensures
            r == (if crate::mc6850::spec_rdrf(self@.acia) { 1int } else { 0int }) + (if self@.rx_shift
                is Some { 1int } else { 0int }),
    {
        self.acia.receive_len() + if self.rx_shift.is_some() {
            1
        } else {
            0
        }
    }

    /// Whether the physical receive line is idle (independent of RDRF).
    pub fn receive_line_idle(&self) -> (r: bool)
        ensures
            r == (self@.rx_shift is None),
    {
        self.rx_shift.is_none()
    }

    fn break_parity_error(&self) -> (r: bool)
        ensures
            r == spec_break_parity_error(self@),
    {
        match self.acia.word_format().parity {
            Parity::Odd => true,
            _ => false,
        }
    }

    fn start_break_frame_if_idle(&mut self)
        ensures
            final(self)@ == spec_start_break_frame_if_idle(old(self)@),
    {
        if !self.rx_break_active || self.rx_shift.is_some() {
            return;
        }
        let parity_error = self.break_parity_error();
        self.rx_shift = Some((0, true, parity_error));
        self.rx_bits_remaining = self.acia.frame_bits();
        self.rx_shift_from_break = true;
    }

    /// Drives or releases a BREAK (continuous space) on the receive wire.
    pub fn set_receive_break(&mut self, active: bool)
        ensures
            final(self)@ == spec_set_receive_break(old(self)@, active),
    {
        if self.rx_break_active == active {
            return;
        }
        self.rx_break_active = active;
        if active {
            self.start_break_frame_if_idle();
        } else if self.rx_shift_from_break {
            self.rx_shift = None;
            self.rx_bits_remaining = 0;
            self.rx_shift_from_break = false;
        }
    }

    /// Writes the ACIA control register. A divider change restarts only the
    /// internal divide epoch; BREAK asserted over a shifting character
    /// corrupts that frame; master reset never resets the external tap phase.
    pub fn write_control(&mut self, value: u8)
        ensures
            final(self)@ == spec_port_write_control(old(self)@, value),
    {
        let was_break = self.acia.break_active();
        let previous_divider = self.clock_divider();
        self.control = value;
        self.acia.write_control(value);
        let next_divider = self.clock_divider();
        let now_break = self.acia.break_active();
        if previous_divider != next_divider {
            self.divider_phase = 0;
        }
        if !was_break && now_break && self.acia.tx_shift_front().is_some() {
            self.tx_frame_corrupted_by_break = true;
        }
        if value & 0x03 == 0x03 {
            self.divider_phase = 0;
            self.tx_bits_remaining = 0;
            self.tx_frame_corrupted_by_break = false;
            self.rx_shift = None;
            self.rx_bits_remaining = 0;
            self.rx_shift_from_break = false;
        } else {
            self.start_break_frame_if_idle();
        }
    }

    /// Writes the TDR; the move into the shift register waits for the next
    /// transmitter clock edge.
    pub fn write_data(&mut self, value: u8)
        ensures
            final(self)@ == (TwoSioView {
                acia: Mc6850View { tdr: Some(value), ..old(self)@.acia },
                ..old(self)@
            }),
    {
        self.acia.write_data(value);
    }

    /// An endpoint starts one physical serial character on the receive line;
    /// a presentation overlapping a busy line (or a held BREAK) is rejected.
    pub fn queue_received_character(&mut self, value: u8)
        ensures
            final(self)@ == spec_queue_received_character(old(self)@, value),
    {
        if !self.receive_line_idle() || self.rx_break_active {
            return;
        }
        self.rx_shift = Some((value, false, false));
        self.rx_bits_remaining = self.acia.frame_bits();
        self.rx_shift_from_break = false;
    }

    /// Debugger injection straight into the ACIA receiver, bypassing wire
    /// time but keeping the one-byte RDR and overrun rules.
    pub fn debugger_inject_received_character(&mut self, value: u8)
        ensures
            final(self)@ == (TwoSioView {
                acia: spec_receive_character(old(self)@.acia, value, false, false),
                ..old(self)@
            }),
    {
        self.acia.receive_character(value, false, false);
    }

    pub fn clear_receive_for_debugger(&mut self)
        ensures
            final(self)@ == spec_start_break_frame_if_idle(TwoSioView {
                acia: Mc6850View {
                    rdr_full: false,
                    framing_error: false,
                    parity_error: false,
                    overrun_pending: false,
                    overrun_visible: false,
                    ..old(self)@.acia
                },
                rx_shift: None,
                rx_bits_remaining: 0,
                rx_shift_from_break: false,
                ..old(self)@
            }),
    {
        self.acia.clear_receive_for_debugger();
        self.rx_shift = None;
        self.rx_bits_remaining = 0;
        self.rx_shift_from_break = false;
        self.start_break_frame_if_idle();
    }

    pub fn clear_transmit_for_debugger(&mut self)
        ensures
            final(self)@ == (TwoSioView {
                acia: Mc6850View { tdr: None, tx_shift: None, ..old(self)@.acia },
                tx_bits_remaining: 0,
                tx_frame_corrupted_by_break: false,
                wire_tx: Seq::empty(),
                ..old(self)@
            }),
    {
        self.acia.clear_transmit_for_debugger();
        self.tx_bits_remaining = 0;
        self.tx_frame_corrupted_by_break = false;
        self.wire_tx.clear();
    }

    /// Forces one debugger-visible transmit completion: an already completed
    /// wire byte first, otherwise the active (or just promoted) character,
    /// without leaving a duplicate for an endpoint.
    pub fn debugger_complete_one_tx(&mut self) -> (r: Option<u8>)
        ensures
            old(self)@.wire_tx.len() > 0 ==> r == Some(old(self)@.wire_tx[0])
                && final(self)@ == (TwoSioView { wire_tx: old(self)@.wire_tx.drop_first(), ..old(self)@ }),
            old(self)@.wire_tx.len() == 0 ==> final(self)@.wire_tx == old(self)@.wire_tx,
            old(self)@.wire_tx.len() == 0 && old(self)@.acia.tx_shift is Some ==> r
                == old(self)@.acia.tx_shift,
            old(self)@.wire_tx.len() == 0 && old(self)@.acia.tx_shift is None ==> r
                == spec_transfer(old(self)@.acia).0.tx_shift,
    {
        match self.wire_tx.pop_front() {
            Some(byte) => return Some(byte),
            None => {},
        }
        if self.acia.tx_shift_front().is_none() {
            if self.acia.transfer_tdr_to_shift_if_idle() {
                self.tx_frame_corrupted_by_break = self.break_active();
            }
        }
        let byte = match self.acia.complete_tx_shift() {
            Some(b) => b,
            None => return None,
        };
        if self.acia.tx_shift_front().is_some() {
            self.tx_frame_corrupted_by_break = self.break_active();
            self.tx_bits_remaining = self.acia.frame_bits();
        } else {
            self.tx_frame_corrupted_by_break = false;
            self.tx_bits_remaining = 0;
        }
        Some(byte)
    }

    pub fn endpoint_tx_front(&self) -> (r: Option<u8>)
        ensures
            r == (if self@.wire_tx.len() > 0 { Some(self@.wire_tx[0]) } else { None }),
    {
        if self.wire_tx.len() > 0 {
            Some(self.wire_tx[0])
        } else {
            None
        }
    }

    pub fn timing_is_quiet(&self) -> (r: bool)
        ensures
            r == spec_timing_is_quiet(self@),
    {
        self.rx_shift.is_none() && !self.rx_break_active && !self.acia.transmit_busy()
    }

    /// Endpoint acknowledgement removes only a byte already completed on the
    /// wire; it never touches TDR/TSR or TDRE.
    pub fn endpoint_tx_complete(&mut self) -> (r: Option<u8>)
        ensures
            old(self)@.wire_tx.len() > 0 ==> r == Some(old(self)@.wire_tx[0])
                && final(self)@ == (TwoSioView { wire_tx: old(self)@.wire_tx.drop_first(), ..old(self)@ }),
            old(self)@.wire_tx.len() == 0 ==> r is None && final(self)@ == old(self)@,
    {
        let r = self.wire_tx.pop_front();
        proof {
            if old(self)@.wire_tx.len() == 0 {
                assert(self@.wire_tx =~= old(self)@.wire_tx);
            }
        }
        r
    }

    pub fn endpoint_tx_pending_or_hardware_busy(&self) -> (r: bool)
        ensures
            r == (self@.wire_tx.len() > 0 || self@.acia.tdr is Some || self@.acia.tx_shift is Some),
    {
        self.wire_tx.len() > 0 || self.acia.transmit_busy()
    }

    fn clock_divider(&self) -> (r: Option<u8>)
        ensures
            r == spec_divider(self@.control),
    {
        let c = self.control & 0x03;
        if c == 0 {
            Some(1)
        } else if c == 1 {
            Some(16)
        } else if c == 2 {
            Some(64)
        } else {
            None
        }
    }

    fn transmitter_bit_boundary(&mut self)
        ensures
            final(self)@ == spec_transmitter_bit_boundary(old(self)@),
    {
        if self.acia.tx_shift_front().is_none() {
            if self.acia.transfer_tdr_to_shift_if_idle() {
                self.tx_bits_remaining = self.acia.frame_bits();
                self.tx_frame_corrupted_by_break = self.break_active();
            }
            return;
        }
        if self.break_active() {
            self.tx_frame_corrupted_by_break = true;
        }
        if self.tx_bits_remaining > 1 {
            self.tx_bits_remaining = self.tx_bits_remaining - 1;
            return;
        }
        if self.tx_bits_remaining == 1 {
            self.tx_bits_remaining = 0;
            let corrupted = self.tx_frame_corrupted_by_break;
            match self.acia.complete_tx_shift() {
                Some(byte) => {
                    if !corrupted {
                        self.wire_tx.push_back(byte);
                    }
                },
                None => {},
            }
            if self.acia.tx_shift_front().is_some() {
                // A waiting TDR byte was promoted at exactly the previous
                // character boundary: back-to-back frames have no idle gap.
                self.tx_bits_remaining = self.acia.frame_bits();
                self.tx_frame_corrupted_by_break = self.break_active();
            } else {
                self.tx_frame_corrupted_by_break = false;
            }
        }
    }

    fn receiver_bit_boundary(&mut self)
        ensures
            final(self)@ == spec_receiver_bit_boundary(old(self)@),
    {
        let (value, framing_error, parity_error) = match self.rx_shift {
            Some(frame) => frame,
            None => {
                self.start_break_frame_if_idle();
                return;
            },
        };
        if self.rx_bits_remaining > 1 {
            self.rx_bits_remaining = self.rx_bits_remaining - 1;
            return;
        }
        if self.rx_bits_remaining == 1 {
            let from_break = self.rx_shift_from_break;
            self.rx_bits_remaining = 0;
            self.rx_shift = None;
            self.rx_shift_from_break = false;
            let break_parity = self.break_parity_error();
            let fe = framing_error || self.rx_break_active;
            let pe = parity_error || (self.rx_break_active && break_parity);
            self.acia.receive_character(value, fe, pe);
            if from_break || self.rx_break_active {
                self.start_break_frame_if_idle();
            }
        }
    }

    /// CPU T-states until the next effective MC6850 clock edge, or `None`
    /// when the channel is quiet (or the divider is in master reset). Idle
    /// ports and intermediate /16 or /64 tap pulses need no wake-up.
    pub fn t_states_until_next_clock_boundary(&self, cpu_clock_hz: u32) -> (r: Option<u64>)
        ensures
            cpu_clock_hz == 0 || spec_timing_is_quiet(self@) || spec_divider(self@.control) is None
                ==> r is None,
            cpu_clock_hz != 0 && !spec_timing_is_quiet(self@) && spec_divider(self@.control) is Some
                ==> ({
                let divider = spec_divider(self@.control).unwrap() as int;
                let per_t_state = spec_baud(self@.baud_tap) * 16;
                let pulses = if divider - self@.divider_phase >= 1 {
                    divider - self@.divider_phase
                } else {
                    1
                };
                let need = pulses * cpu_clock_hz - self@.tap_phase_numerator;
                let need_nonneg = if need > 0 { need } else { 0 };
                let steps = (need_nonneg + per_t_state - 1) / per_t_state;
                r == Some((if steps >= 1 { steps } else { 1 }) as u64)
            }),
    {
        if cpu_clock_hz == 0 || self.timing_is_quiet() {
            return None;
        }
        let divider = match self.clock_divider() {
            Some(d) => d as u64,
            None => return None,
        };
        let numerator_per_t_state = self.baud_tap.baud() as u64 * 16;
        let threshold = cpu_clock_hz as u128;
        let phase = self.divider_phase as u64;
        let pulses_needed: u64 = if divider > phase && divider - phase >= 1 {
            divider - phase
        } else {
            1
        };
        assert(pulses_needed <= 64);
        assert(pulses_needed as u128 * threshold <= 64 * 0xffff_ffffu128) by (nonlinear_arith)
            requires
                pulses_needed <= 64,
                threshold <= 0xffff_ffffu128,
        ;
        let product = pulses_needed as u128 * threshold;
        let required_numerator: u128 = if product > self.tap_phase_numerator as u128 {
            product - self.tap_phase_numerator as u128
        } else {
            0
        };
        let per = numerator_per_t_state as u128;
        let steps = (required_numerator + (per - 1)) / per;
        assert(steps <= u64::MAX) by (nonlinear_arith)
            requires
                required_numerator <= pulses_needed * threshold,
                pulses_needed <= 64,
                threshold <= u32::MAX,
                per >= 1,
                steps == (required_numerator + (per - 1)) as int / per as int,
        ;
        let steps = if steps >= 1 { steps } else { 1 };
        Some(steps as u64)
    }

    /// Advances the channel by `t_states` CPU clock periods.
    pub fn advance_t_states(&mut self, t_states: u64, cpu_clock_hz: u32)
        ensures
            final(self)@ == spec_advance(old(self)@, t_states, cpu_clock_hz),
    {
        if t_states == 0 || cpu_clock_hz == 0 {
            return;
        }
        let numerator_per_t_state = self.baud_tap.baud() as u64 * 16;
        let threshold = cpu_clock_hz as u64;
        let total = self.tap_phase_numerator.saturating_add(sat_mul(t_states, numerator_per_t_state));
        let tap_pulses = total / threshold;
        self.tap_phase_numerator = total % threshold;
        let divider = match self.clock_divider() {
            Some(d) => d as u64,
            None => {
                self.divider_phase = 0;
                return;
            },
        };
        let divided_total = (self.divider_phase as u64).saturating_add(tap_pulses);
        let boundaries = divided_total / divider;
        self.divider_phase = (divided_total % divider) as u8;
        let ghost start = self@;
        let mut k: u64 = 0;
        while k < boundaries
            invariant
                k <= boundaries,
                spec_boundaries(start, boundaries as nat) == spec_boundaries(self@, (boundaries - k) as nat),
            decreases boundaries - k,
        {
            self.transmitter_bit_boundary();
            self.receiver_bit_boundary();
            k = k + 1;
        }
    }
}

} // verus!
