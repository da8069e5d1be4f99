//! Motorola MC6850 ACIA digital core.
//!
//! This models the chip-owned register/flag state independently from any
//! host terminal. Serial bit timing is driven by callers through
//! transmitter/receiver completion events; endpoints never own TDRE/RDRF.

use vstd::prelude::*;

verus! {

#[derive(Clone, Copy, Debug, PartialEq, Eq, Structural)]
pub enum Parity {
    NoParity,
    Even,
    Odd,
}

#[derive(Clone, Copy, Debug, PartialEq, Eq, Structural)]
pub struct WordFormat {
    pub data_bits: u8,
    pub parity: Parity,
    pub stop_bits: u8,
}

/// The character format selected by control bits CR4..CR2.
pub open spec fn spec_word_format(control: u8) -> WordFormat {
    let w = (control >> 2) & 0x07;
    if w == 0 {
        WordFormat { data_bits: 7, parity: Parity::Even, stop_bits: 2 }
    } else if w == 1 {
        WordFormat { data_bits: 7, parity: Parity::Odd, stop_bits: 2 }
    } else if w == 2 {
        WordFormat { data_bits: 7, parity: Parity::Even, stop_bits: 1 }
    } else if w == 3 {
        WordFormat { data_bits: 7, parity: Parity::Odd, stop_bits: 1 }
    } else if w == 4 {
        WordFormat { data_bits: 8, parity: Parity::NoParity, stop_bits: 2 }
    } else if w == 5 {
        WordFormat { data_bits: 8, parity: Parity::NoParity, stop_bits: 1 }
    } else if w == 6 {
        WordFormat { data_bits: 8, parity: Parity::Even, stop_bits: 1 }
    } else {
        WordFormat { data_bits: 8, parity: Parity::Odd, stop_bits: 1 }
    }
}

/// Bits in one serial frame: start bit, data bits, optional parity, stop bits.
pub open spec fn spec_frame_bits(control: u8) -> u8 {
    let f = spec_word_format(control);
    (1 + f.data_bits + (if f.parity == Parity::NoParity { 0u8 } else { 1u8 }) + f.stop_bits) as u8
}

/// The complete ACIA state as mathematical values.
pub struct Mc6850View {
    pub control: u8,
    pub rdr: u8,
    pub rdr_full: bool,
    pub framing_error: bool,
    pub parity_error: bool,
    pub overrun_pending: bool,
    pub overrun_visible: bool,
    pub tdr: Option<u8>,
    pub tx_shift: Option<u8>,
    pub cts_high: bool,
    pub dcd_input_high: bool,
    pub dcd_status_latched: bool,
    pub dcd_irq_pending: bool,
    pub dcd_status_seen: bool,
}

#[derive(Clone, Debug)]
pub struct Mc6850 {
    control: u8,
    rdr: u8,
    rdr_full: bool,
    framing_error: bool,
    parity_error: bool,
    overrun_pending: bool,
    overrun_visible: bool,
    tdr: Option<u8>,
    tx_shift: Option<u8>,
    cts_high: bool,
    dcd_input_high: bool,
    dcd_status_latched: bool,
    dcd_irq_pending: bool,
    dcd_status_seen: bool,
}

impl View for Mc6850 {
    type V = Mc6850View;

    closed spec fn view(&self) -> Mc6850View {
        Mc6850View {
            control: self.control,
            rdr: self.rdr,
            rdr_full: self.rdr_full,
            framing_error: self.framing_error,
            parity_error: self.parity_error,
            overrun_pending: self.overrun_pending,
            overrun_visible: self.overrun_visible,
            tdr: self.tdr,
            tx_shift: self.tx_shift,
            cts_high: self.cts_high,
            dcd_input_high: self.dcd_input_high,
            dcd_status_latched: self.dcd_status_latched,
            dcd_irq_pending: self.dcd_irq_pending,
            dcd_status_seen: self.dcd_status_seen,
        }
    }
}

/// Master reset: clears receiver/transmitter/status state; keeps the control
/// register and the external CTS/DCD levels.
pub open spec fn spec_master_reset(v: Mc6850View) -> Mc6850View {
    Mc6850View {
        rdr_full: false,
        framing_error: false,
        parity_error: false,
        overrun_pending: false,
        overrun_visible: false,
        tdr: None,
        tx_shift: None,
        dcd_status_latched: v.dcd_input_high,
        dcd_irq_pending: false,
        dcd_status_seen: false,
        ..v
    }
}

/// Receive Data Register Full as seen by software: DCD high forces it empty;
/// during an overrun indication it stays set.
pub open spec fn spec_rdrf(v: Mc6850View) -> bool {
    !v.dcd_input_high && (v.rdr_full || v.overrun_visible)
}

/// Transmit Data Register Empty: the TDR is empty and CTS does not inhibit.
pub open spec fn spec_tdre(v: Mc6850View) -> bool {
    !v.cts_high && v.tdr is None
}

pub open spec fn spec_receive_interrupt_enabled(control: u8) -> bool {
    control & 0x80 != 0
}

pub open spec fn spec_transmit_interrupt_enabled(control: u8) -> bool {
    control & 0x60 == 0x20
}

pub open spec fn spec_rts_asserted(control: u8) -> bool {
    control & 0x60 == 0x00 || control & 0x60 == 0x20 || control & 0x60 == 0x60
}

pub open spec fn spec_break_active(control: u8) -> bool {
    control & 0x60 == 0x60
}

pub open spec fn spec_interrupt_request(v: Mc6850View) -> bool {
    (spec_receive_interrupt_enabled(v.control) && (spec_rdrf(v) || v.overrun_visible
        || v.dcd_irq_pending)) || (spec_transmit_interrupt_enabled(v.control) && spec_tdre(v))
}

pub open spec fn bit(b: bool, mask: u8) -> u8 {
    if b { mask } else { 0 }
}

/// The status register: RDRF, TDRE, DCD, CTS, FE, OVRN, PE, IRQ on D0..D7.
pub open spec fn spec_status(v: Mc6850View) -> u8 {
    bit(spec_rdrf(v), 0x01) | bit(spec_tdre(v), 0x02) | bit(
        v.dcd_input_high || v.dcd_status_latched,
        0x04,
    ) | bit(v.cts_high, 0x08) | bit(v.framing_error && v.rdr_full, 0x10) | bit(
        v.overrun_visible,
        0x20,
    ) | bit(v.parity_error && v.rdr_full, 0x40) | bit(spec_interrupt_request(v), 0x80)
}

/// State after a data-register read.
pub open spec fn spec_read_data(v: Mc6850View) -> Mc6850View {
    let v1 = if v.overrun_visible {
        Mc6850View { overrun_visible: false, rdr_full: false, ..v }
    } else if v.rdr_full {
        if v.overrun_pending {
            Mc6850View { rdr_full: false, overrun_pending: false, overrun_visible: true, ..v }
        } else {
            Mc6850View { rdr_full: false, ..v }
        }
    } else {
        v
    };
    let v2 = if !v1.rdr_full {
        Mc6850View { framing_error: false, parity_error: false, ..v1 }
    } else {
        v1
    };
    if v2.dcd_status_seen {
        Mc6850View {
            dcd_irq_pending: false,
            dcd_status_seen: false,
            dcd_status_latched: if !v2.dcd_input_high { false } else { v2.dcd_status_latched },
            ..v2
        }
    } else {
        v2
    }
}

/// State after a completed received character is offered to the RDR.
pub open spec fn spec_receive_character(v: Mc6850View, value: u8, framing_error: bool, parity_error: bool) -> Mc6850View {
    if v.rdr_full || v.overrun_visible {
        Mc6850View { overrun_pending: true, ..v }
    } else {
        Mc6850View {
            rdr: if spec_word_format(v.control).data_bits == 7 { value & 0x7f } else { value },
            rdr_full: true,
            framing_error,
            parity_error: spec_word_format(v.control).parity != Parity::NoParity && parity_error,
            ..v
        }
    }
}

/// State and result of one transmitter-clock opportunity to move TDR into the
/// idle shift register.
pub open spec fn spec_transfer(v: Mc6850View) -> (Mc6850View, bool) {
    if v.cts_high || v.tx_shift is Some || v.tdr is None {
        (v, false)
    } else {
        (Mc6850View { tx_shift: v.tdr, tdr: None, ..v }, true)
    }
}

/// State after writing the control register; CR1:CR0 = 11 is master reset.
pub open spec fn spec_write_control(v: Mc6850View, value: u8) -> Mc6850View {
    if value & 0x03 == 0x03 {
        spec_master_reset(Mc6850View { control: value, ..v })
    } else {
        Mc6850View { control: value, ..v }
    }
}

/// State and value of a status-register read.
pub open spec fn spec_read_status(v: Mc6850View) -> (Mc6850View, u8) {
    let status = spec_status(v);
    (
        Mc6850View {
            dcd_status_seen: if status & 0x04 != 0 { true } else { v.dcd_status_seen },
            ..v
        },
        status,
    )
}

/// State and completed byte when the transmit shift register finishes.
pub open spec fn spec_complete_tx_shift(v: Mc6850View) -> (Mc6850View, Option<u8>) {
    match v.tx_shift {
        None => (v, None),
        Some(b) => (spec_transfer(Mc6850View { tx_shift: None, ..v }).0, Some(b)),
    }
}

/// The power-on state: everything cleared with CTS and DCD low.
pub open spec fn spec_power_on() -> Mc6850View {
    Mc6850View {
        control: 0,
        rdr: 0,
        rdr_full: false,
        framing_error: false,
        parity_error: false,
        overrun_pending: false,
        overrun_visible: false,
        tdr: None,
        tx_shift: None,
        cts_high: false,
        dcd_input_high: false,
        dcd_status_latched: false,
        dcd_irq_pending: false,
        dcd_status_seen: false,
    }
}

fn flag(b: bool, mask: u8) -> (r: u8)
    ensures
        r == bit(b, mask),
{
    if b {
        mask
    } else {
        0
    }
}

impl Mc6850 {
    pub fn new() -> (r: Self)
        ensures
            r@ == spec_power_on(),
    {
        // MITS documents grounding unused CTS/DCD inputs: low is the normal
        // directly connected terminal condition.
        let mut acia = Mc6850 {
            control: 0,
            rdr: 0,
            rdr_full: false,
            framing_error: false,
            parity_error: false,
            overrun_pending: false,
            overrun_visible: false,
            tdr: None,
            tx_shift: None,
            cts_high: false,
            dcd_input_high: false,
            dcd_status_latched: false,
            dcd_irq_pending: false,
            dcd_status_seen: false,
        };
        acia.master_reset();
        acia
    }

    pub fn control(&self) -> (r: u8)
        ensures
            r == self@.control,
    {
        self.control
    }

    /// The receive/transmit clock divider selected by CR1:CR0 (`None` while
    /// those bits select master reset).
    pub fn clock_divider(&self) -> (r: Option<u8>)
        ensures
            r == (if self@.control & 0x03 == 0 {
                Some(1u8)
            } else if self@.control & 0x03 == 1 {
                Some(16u8)
            } else if self@.control & 0x03 == 2 {
                Some(64u8)
            } else {
                None
            }),
    {
        let c = self.control & 0x03;
        if c == 0 {
            Some(1)
        } else if c == 1 {
            Some(16)
        } else if c == 2 {
            Some(64)
        } else {
            None
        }
    }

    pub fn word_format(&self) -> (r: WordFormat)
        ensures
            r == spec_word_format(self@.control),
    {
        let w = (self.control >> 2) & 0x07;
        if w == 0 {
            WordFormat { data_bits: 7, parity: Parity::Even, stop_bits: 2 }
        } else if w == 1 {
            WordFormat { data_bits: 7, parity: Parity::Odd, stop_bits: 2 }
        } else if w == 2 {
            WordFormat { data_bits: 7, parity: Parity::Even, stop_bits: 1 }
        } else if w == 3 {
            WordFormat { data_bits: 7, parity: Parity::Odd, stop_bits: 1 }
        } else if w == 4 {
            WordFormat { data_bits: 8, parity: Parity::NoParity, stop_bits: 2 }
        } else if w == 5 {
            WordFormat { data_bits: 8, parity: Parity::NoParity, stop_bits: 1 }
        } else if w == 6 {
            WordFormat { data_bits: 8, parity: Parity::Even, stop_bits: 1 }
        } else {
            WordFormat { data_bits: 8, parity: Parity::Odd, stop_bits: 1 }
        }
    }

    /// Bits in one serial frame of the selected format.
    pub fn frame_bits(&self) -> (r: u8)
        ensures
            r == spec_frame_bits(self@.control),
            9 <= r <= 11,
    {
        let f = self.word_format();
        let parity_bits: u8 = match f.parity {
            Parity::NoParity => 0,
            _ => 1,
        };
        1 + f.data_bits + parity_bits + f.stop_bits
    }

    pub fn receive_interrupt_enabled(&self) -> (r: bool)
        ensures
            r == spec_receive_interrupt_enabled(self@.control),
    {
        self.control & 0x80 != 0
    }

    pub fn transmit_interrupt_enabled(&self) -> (r: bool)
        ensures
            r == spec_transmit_interrupt_enabled(self@.control),
    {
        self.control & 0x60 == 0x20
    }

    /// Active-low RTS output expressed as an asserted boolean.
    pub fn rts_asserted(&self) -> (r: bool)
        ensures
            r == spec_rts_asserted(self@.control),
    {
        let c = self.control & 0x60;
        c == 0x00 || c == 0x20 || c == 0x60
    }

    /// Physical level of the active-low RTS pin.
    pub fn rts_high(&self) -> (r: bool)
        ensures
            r == !spec_rts_asserted(self@.control),
    {
        !self.rts_asserted()
    }

    pub fn break_active(&self) -> (r: bool)
        ensures
            r == spec_break_active(self@.control),
    {
        self.control & 0x60 == 0x60
    }

    pub fn cts_high(&self) -> (r: bool)
        ensures
            r == self@.cts_high,
    {
        self.cts_high
    }

    pub fn dcd_high(&self) -> (r: bool)
        ensures
            r == self@.dcd_input_high,
    {
        self.dcd_input_high
    }

    /// Writes the control register; CR1:CR0 = 11 also performs master reset.
    pub fn write_control(&mut self, value: u8)
        ensures
            final(self)@ == spec_write_control(old(self)@, value),
    {
        self.control = value;
        if value & 0x03 == 0x03 {
            self.master_reset();
        }
    }

    /// Master reset clears internal status/error state and initialises the
    /// transmitter/receiver, without altering CR2..CR7 or CTS/DCD levels.
    pub fn master_reset(&mut self)
        ensures
            final(self)@ == spec_master_reset(old(self)@),
    {
        self.rdr_full = false;
        self.framing_error = false;
        self.parity_error = false;
        self.overrun_pending = false;
        self.overrun_visible = false;
        self.tdr = None;
        self.tx_shift = None;
        self.dcd_status_latched = self.dcd_input_high;
        self.dcd_irq_pending = false;
        self.dcd_status_seen = false;
    }

    fn rdrf(&self) -> (r: bool)
        ensures
            r == spec_rdrf(self@),
    {
        !self.dcd_input_high && (self.rdr_full || self.overrun_visible)
    }

    fn tdre(&self) -> (r: bool)
        ensures
            r == spec_tdre(self@),
    {
        !self.cts_high && self.tdr.is_none()
    }

    pub fn interrupt_request(&self) -> (r: bool)
        ensures
            r == spec_interrupt_request(self@),
    {
        let rx_irq = self.receive_interrupt_enabled() && (self.rdrf() || self.overrun_visible
            || self.dcd_irq_pending);
        let tx_irq = self.transmit_interrupt_enabled() && self.tdre();
        rx_irq || tx_irq
    }

    fn status_value(&self) -> (r: u8)
        ensures
            r == spec_status(self@),
    {
        flag(self.rdrf(), 0x01) | flag(self.tdre(), 0x02) | flag(
            self.dcd_input_high || self.dcd_status_latched,
            0x04,
        ) | flag(self.cts_high, 0x08) | flag(self.framing_error && self.rdr_full, 0x10) | flag(
            self.overrun_visible,
            0x20,
        ) | flag(self.parity_error && self.rdr_full, 0x40) | flag(self.interrupt_request(), 0x80)
    }

    /// The status register without the read side effect.
    pub fn peek_status(&self) -> (r: u8)
        ensures
            r == spec_status(self@),
    {
        self.status_value()
    }

    /// Reads the status register; a visible DCD bit arms the status-then-data
    /// sequence that clears the loss-of-carrier interrupt.
    pub fn read_status(&mut self) -> (r: u8)
        ensures
            (final(self)@, r) == spec_read_status(old(self)@),
    {
        let status = self.status_value();
        if status & 0x04 != 0 {
            self.dcd_status_seen = true;
        }
        status
    }

    pub fn peek_data(&self) -> (r: u8)
        ensures
            r == self@.rdr,
    {
        self.rdr
    }

    /// Reads the receive data register. After an overrun the valid
    /// pre-overrun character stays readable with RDRF set; the next data read
    /// clears the overrun indication.
    pub fn read_data(&mut self) -> (r: u8)
        ensures
            r == old(self)@.rdr,
            final(self)@ == spec_read_data(old(self)@),
    {
        let value = self.rdr;
        if self.overrun_visible {
            self.overrun_visible = false;
            self.rdr_full = false;
        } else if self.rdr_full {
            self.rdr_full = false;
            if self.overrun_pending {
                self.overrun_pending = false;
                self.overrun_visible = true;
            }
        }
        if !self.rdr_full {
            self.framing_error = false;
            self.parity_error = false;
        }
        if self.dcd_status_seen {
            self.dcd_irq_pending = false;
            self.dcd_status_seen = false;
            if !self.dcd_input_high {
                self.dcd_status_latched = false;
            }
        }
        value
    }

    /// Completes one received serial character into the one-byte RDR when it
    /// is free; otherwise the character is lost and a delayed overrun armed.
    pub fn receive_character(&mut self, value: u8, framing_error: bool, parity_error: bool)
        ensures
            final(self)@ == spec_receive_character(old(self)@, value, framing_error, parity_error),
    {
        if self.rdr_full || self.overrun_visible {
            self.overrun_pending = true;
            return;
        }
        let format = self.word_format();
        self.rdr = if format.data_bits == 7 { value & 0x7f } else { value };
        self.rdr_full = true;
        self.framing_error = framing_error;
        self.parity_error = match format.parity {
            Parity::NoParity => false,
            _ => parity_error,
        };
    }

    pub fn clear_receive_for_debugger(&mut self)
        ensures
            final(self)@ == (Mc6850View {
                rdr_full: false,
                framing_error: false,
                parity_error: false,
                overrun_pending: false,
                overrun_visible: false,
                ..old(self)@
            }),
    {
        self.rdr_full = false;
        self.framing_error = false;
        self.parity_error = false;
        self.overrun_pending = false;
        self.overrun_visible = false;
    }

    /// Host-facing receive depth: one when RDRF is visible.
    pub fn receive_len(&self) -> (r: usize)
        ensures
            r == (if spec_rdrf(self@) { 1usize } else { 0usize }),
    {
        if self.rdrf() {
            1
        } else {
            0
        }
    }

    pub fn write_data(&mut self, value: u8)
        ensures
            final(self)@ == (Mc6850View { tdr: Some(value), ..old(self)@ }),
    {
        self.tdr = Some(value);
    }

    /// One transmitter clock opportunity: an idle shift register takes the
    /// TDR byte (if CTS permits). This is the transition that sets TDRE.
    pub fn transfer_tdr_to_shift_if_idle(&mut self) -> (r: bool)
        ensures
            (final(self)@, r) == spec_transfer(old(self)@),
    {
        if self.cts_high || self.tx_shift.is_some() {
            return false;
        }
        match self.tdr {
            None => false,
            Some(value) => {
                self.tdr = None;
                self.tx_shift = Some(value);
                true
            },
        }
    }

    pub fn tx_shift_front(&self) -> (r: Option<u8>)
        ensures
            r == self@.tx_shift,
    {
        self.tx_shift
    }

    pub fn transmit_busy(&self) -> (r: bool)
        ensures
            r == (self@.tdr is Some || self@.tx_shift is Some),
    {
        self.tdr.is_some() || self.tx_shift.is_some()
    }

    /// Completes the shifting character; a waiting TDR byte starts at the same
    /// boundary.
    pub fn complete_tx_shift(&mut self) -> (r: Option<u8>)
        ensures
            (final(self)@, r) == spec_complete_tx_shift(old(self)@),
    {
        match self.tx_shift {
            None => None,
            Some(completed) => {
                self.tx_shift = None;
                let _ = self.transfer_tdr_to_shift_if_idle();
                Some(completed)
            },
        }
    }

    pub fn clear_transmit_for_debugger(&mut self)
        ensures
            final(self)@ == (Mc6850View { tdr: None, tx_shift: None, ..old(self)@ }),
    {
        self.tdr = None;
        self.tx_shift = None;
    }

    pub fn set_cts_high(&mut self, high: bool)
        ensures
            final(self)@ == (Mc6850View { cts_high: high, ..old(self)@ }),
    {
        self.cts_high = high;
    }

    /// Drives the DCD input; a low-to-high transition latches the DCD status
    /// bit and the loss-of-carrier interrupt.
    pub fn set_dcd_high(&mut self, high: bool)
        ensures
            final(self)@ == (if high && !old(self)@.dcd_input_high {
                Mc6850View {
                    dcd_input_high: high,
                    dcd_status_latched: true,
                    dcd_irq_pending: true,
                    ..old(self)@
                }
            } else {
                Mc6850View { dcd_input_high: high, ..old(self)@ }
            }),
    {
        if high && !self.dcd_input_high {
            self.dcd_status_latched = true;
            self.dcd_irq_pending = true;
        }
        self.dcd_input_high = high;
    }
}

impl Default for Mc6850 {
    fn default() -> (r: Self)
        ensures
            r@ == spec_power_on(),
    {
        Mc6850::new()
    }
}

/// The RDR is one byte deep: a character arriving while it is full (or while
/// an overrun is visible) is lost without touching the held byte, and only
/// arms the delayed overrun indication.
pub proof fn lemma_rdr_is_one_byte_deep(v: Mc6850View, value: u8, fe: bool, pe: bool)
    requires
        v.rdr_full || v.overrun_visible,
    ensures
        spec_receive_character(v, value, fe, pe).rdr == v.rdr,
        spec_receive_character(v, value, fe, pe).overrun_pending,
        spec_receive_character(v, value, fe, pe).rdr_full == v.rdr_full,
{
}

/// The delayed overrun: with one character held and another lost, the first
/// data read returns the held character and makes OVRN visible while RDRF
/// stays set; the second read clears both.
pub proof fn lemma_overrun_is_delayed(v: Mc6850View)
    requires
        v.rdr_full,
        !v.overrun_visible,
        v.overrun_pending,
        !v.dcd_input_high,
    ensures
        spec_read_data(v).overrun_visible,
        spec_rdrf(spec_read_data(v)),
        !spec_rdrf(spec_read_data(spec_read_data(v))),
        !spec_read_data(spec_read_data(v)).overrun_visible,
{
}

/// Master reset keeps the control register and the CTS/DCD input levels and
/// leaves the transmitter and receiver empty.
pub proof fn lemma_master_reset_preserves_control_and_inputs(v: Mc6850View)
    ensures
        spec_master_reset(v).control == v.control,
        spec_master_reset(v).cts_high == v.cts_high,
        spec_master_reset(v).dcd_input_high == v.dcd_input_high,
        !spec_rdrf(spec_master_reset(v)),
        spec_master_reset(v).tdr is None && spec_master_reset(v).tx_shift is None,
{
}

/// TDRE describes only the TDR: moving a byte into the idle shift register
/// sets it even though the character is still being transmitted.
pub proof fn lemma_tdre_tracks_only_tdr(v: Mc6850View)
    requires
        !v.cts_high,
        v.tx_shift is None,
        v.tdr is Some,
    ensures
        !spec_tdre(v),
        spec_transfer(v).1,
        spec_tdre(spec_transfer(v).0),
        spec_transfer(v).0.tx_shift == v.tdr,
{
}


/// The character format follows the MC6850 word-select bits directly: CR4
/// selects eight data bits instead of seven; with CR4 set and CR3 clear there
/// is no parity, otherwise CR2 selects odd instead of even parity; two stop
/// bits are sent for 7E2/7O2 (CR4 and CR3 clear) and for 8N2 (CR4 set, CR3
/// and CR2 clear), one otherwise. A frame is a start bit, the data bits, the
/// parity bit if any, and the stop bits.
pub proof fn lemma_word_format_follows_control_bits(control: u8)
    ensures
        ({
            let f = spec_word_format(control);
            let cr4 = control & 0x10 != 0;
            let cr3 = control & 0x08 != 0;
            let cr2 = control & 0x04 != 0;
            &&& f.data_bits == (if cr4 { 8u8 } else { 7u8 })
            &&& f.parity == (if cr4 && !cr3 {
                Parity::NoParity
            } else if cr2 {
                Parity::Odd
            } else {
                Parity::Even
            })
            &&& f.stop_bits == (if (!cr4 && !cr3) || (cr4 && !cr3 && !cr2) { 2u8 } else { 1u8 })
            &&& spec_frame_bits(control) == 1 + f.data_bits + (if f.parity == Parity::NoParity { 0int } else { 1int })
                + f.stop_bits
        }),
{
    let w = (control >> 2) & 0x07;
    assert(w < 8) by (bit_vector)
        requires
            w == (control >> 2u8) & 0x07u8,
    ;
    assert(((control & 0x10 != 0) == (w & 4 != 0)) && ((control & 0x08 != 0) == (w & 2 != 0)) && ((control & 0x04
        != 0) == (w & 1 != 0))) by (bit_vector)
        requires
            w == (control >> 2u8) & 0x07u8,
    ;
    assert(w & 4 != 0 <==> w >= 4) by (bit_vector)
        requires
            w < 8,
    ;
    assert((w & 2 != 0) <==> (w == 2 || w == 3 || w == 6 || w == 7)) by (bit_vector)
        requires
            w < 8,
    ;
    assert((w & 1 != 0) <==> (w == 1 || w == 3 || w == 5 || w == 7)) by (bit_vector)
        requires
            w < 8,
    ;
}

} // verus!
