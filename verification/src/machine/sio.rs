//! The COM2502 UART of one MITS 88-SIO card.
//!
//! The UART is double buffered in both directions. `tx_holding` is the
//! transmitter holding register (TBMT reflects it) and `tx_shift` the active
//! serial shift register; `rx_shift` is the receiver shift register and
//! `rx_data` the receiver holding register (RDA reflects it).

use std::collections::VecDeque;
use vstd::prelude::*;
use crate::config::{
    SioDataBits, SioHardwareConfig, SioParity, SioRevision, spec_frame_bits,
};
use crate::machine::fd400::{sat_add, sat_mul, saturating_mul_u64};

verus! {

/// The UART state as mathematical values.
pub struct SioView {
    pub config: SioHardwareConfig,
    pub bit_phase_numerator: u64,
    pub rx_data: u8,
    pub rx_full: bool,
    /// A character on the receive line: value, framing error, parity error.
    pub rx_shift: Option<(u8, bool, bool)>,
    pub rx_bits_remaining: u8,
    pub overrun: bool,
    pub framing_error: bool,
    pub parity_error: bool,
    pub tx_holding: Option<u8>,
    pub tx_shift: Option<u8>,
    pub tx_bits_remaining: u8,
    /// Characters that have completely left the transmitter, oldest first.
    pub wire_tx: Seq<u8>,
}

pub struct SioPort {
    config: SioHardwareConfig,
    bit_phase_numerator: u64,
    rx_data: u8,
    rx_full: bool,
    rx_shift: Option<(u8, bool, bool)>,
    rx_bits_remaining: u8,
    overrun: bool,
    framing_error: bool,
    parity_error: bool,
    tx_holding: Option<u8>,
    tx_shift: Option<u8>,
    tx_bits_remaining: u8,
    wire_tx: VecDeque<u8>,
}

impl View for SioPort {
    type V = SioView;

    closed spec fn view(&self) -> SioView {
        SioView {
            config: self.config,
            bit_phase_numerator: self.bit_phase_numerator,
            rx_data: self.rx_data,
            rx_full: self.rx_full,
            rx_shift: self.rx_shift,
            rx_bits_remaining: self.rx_bits_remaining,
            overrun: self.overrun,
            framing_error: self.framing_error,
            parity_error: self.parity_error,
            tx_holding: self.tx_holding,
            tx_shift: self.tx_shift,
            tx_bits_remaining: self.tx_bits_remaining,
            wire_tx: self.wire_tx@,
        }
    }
}

/// A card just powered up or master-reset with the given straps.
pub open spec fn spec_sio_reset(config: SioHardwareConfig) -> SioView {
    SioView {
        config,
        bit_phase_numerator: 0,
        rx_data: 0,
        rx_full: false,
        rx_shift: None,
        rx_bits_remaining: 0,
        overrun: false,
        framing_error: false,
        parity_error: false,
        tx_holding: None,
        tx_shift: None,
        tx_bits_remaining: 0,
        wire_tx: Seq::empty(),
    }
}

/// The data bits kept of a received character.
pub open spec fn spec_data_mask(d: SioDataBits) -> u8 {
    match d {
        SioDataBits::Five => 0x1f,
        SioDataBits::Six => 0x3f,
        SioDataBits::Seven => 0x7f,
        SioDataBits::Eight => 0xff,
    }
}

/// At the end of a frame the COM2502 first notes whether RDA was already
/// high (overrun), then moves the new character into the holding register,
/// overwriting any unread one.
pub open spec fn spec_complete_received(v: SioView, value: u8, framing_error: bool, parity_error: bool) -> SioView {
    SioView {
        overrun: v.rx_full,
        rx_data: value & spec_data_mask(v.config.format.data_bits),
        rx_full: true,
        framing_error,
        parity_error: v.config.format.parity != SioParity::NoParity && parity_error,
        ..v
    }
}

/// The holding register moves into an idle shift register.
pub open spec fn spec_promote_tx(v: SioView) -> SioView {
    if v.tx_shift is Some {
        v
    } else {
        match v.tx_holding {
            None => v,
            Some(value) => SioView {
                tx_holding: None,
                tx_shift: Some(value),
                tx_bits_remaining: spec_frame_bits(v.config.format),
                ..v
            },
        }
    }
}

pub open spec fn spec_sio_status(v: SioView) -> u8 {
    let errors: u8 = (if v.overrun { 0x10u8 } else { 0u8 }) | (if v.framing_error { 0x08u8 } else { 0u8 }) | (
    if v.parity_error {
        0x04u8
    } else {
        0u8
    });
    match v.config.revision {
        SioRevision::Rev0 => errors | (if v.rx_full { 0x20u8 } else { 0u8 }) | (if v.tx_holding is None {
            0x02u8
        } else {
            0u8
        }),
        SioRevision::Rev1 => errors | (if !v.rx_full { 0x01u8 } else { 0u8 }) | (if v.tx_holding is Some {
            0x80u8
        } else {
            0u8
        }),
    }
}

pub open spec fn spec_sio_tx_boundary(v: SioView) -> SioView {
    match v.tx_shift {
        None => spec_promote_tx(v),
        Some(byte) => if v.tx_bits_remaining > 1 {
            SioView { tx_bits_remaining: (v.tx_bits_remaining - 1) as u8, ..v }
        } else if v.tx_bits_remaining == 1 {
            spec_promote_tx(
                SioView { tx_bits_remaining: 0, tx_shift: None, wire_tx: v.wire_tx.push(byte), ..v },
            )
        } else {
            v
        },
    }
}

pub open spec fn spec_sio_rx_boundary(v: SioView) -> SioView {
    match v.rx_shift {
        None => v,
        Some(c) => if v.rx_bits_remaining > 1 {
            SioView { rx_bits_remaining: (v.rx_bits_remaining - 1) as u8, ..v }
        } else if v.rx_bits_remaining == 1 {
            spec_complete_received(
                SioView { rx_bits_remaining: 0, rx_shift: None, ..v },
                c.0,
                c.1,
                c.2,
            )
        } else {
            v
        },
    }
}

pub open spec fn spec_sio_boundaries(v: SioView, n: nat) -> SioView
    decreases n,
{
    if n == 0 {
        v
    } else {
        spec_sio_boundaries(spec_sio_rx_boundary(spec_sio_tx_boundary(v)), (n - 1) as nat)
    }
}

/// One serial bit boundary per `cpu_clock_hz / baud` elapsed T-states; the
/// remainder carries over to the next call.
pub open spec fn spec_sio_advance(v: SioView, t_states: u64, cpu_clock_hz: u32) -> SioView {
    if t_states == 0 || cpu_clock_hz == 0 || v.config.baud.spec_baud() == 0 {
        v
    } else {
        let total = sat_add(
            v.bit_phase_numerator,
            sat_mul(t_states, v.config.baud.spec_baud() as u64) as int,
        );
        spec_sio_boundaries(
            SioView { bit_phase_numerator: (total % (cpu_clock_hz as u64)) as u64, ..v },
            (total / (cpu_clock_hz as u64)) as nat,
        )
    }
}

impl SioPort {
    pub fn new(config: SioHardwareConfig) -> (r: Self)
        ensures
            r@ == spec_sio_reset(config),
    {
        SioPort {
            config,
            bit_phase_numerator: 0,
            rx_data: 0,
            rx_full: false,
            rx_shift: None,
            rx_bits_remaining: 0,
            overrun: false,
            framing_error: false,
            parity_error: false,
            tx_holding: None,
            tx_shift: None,
            tx_bits_remaining: 0,
            wire_tx: VecDeque::new(),
        }
    }

    /// New straps reset the card; the same straps leave it running.
    pub fn configure(&mut self, config: SioHardwareConfig)
        ensures
            final(self)@ == if old(self)@.config == config {
                old(self)@
            } else {
                spec_sio_reset(config)
            },
    {
        if self.config == config {
            return ;
        }
        *self = SioPort::new(config);
    }

    pub fn config(&self) -> (r: SioHardwareConfig)
        ensures
            r == self@.config,
    {
        self.config
    }

    /// Master reset: everything but the straps returns to power-up state.
    pub fn clear(&mut self)
        ensures
            final(self)@ == spec_sio_reset(old(self)@.config),
    {
        let config = self.config;
        *self = SioPort::new(config);
    }

    pub fn receive_line_idle(&self) -> (r: bool)
        ensures
            r == (self@.rx_shift is None),
    {
        self.rx_shift.is_none()
    }

    /// Characters inside the receiver: in the holding register and on the line.
    pub fn receive_len(&self) -> (r: usize)
        ensures
            r == (if self@.rx_full { 1int } else { 0int }) + (if self@.rx_shift is Some {
                1int
            } else {
                0int
            }),
    {
        let held: usize = if self.rx_full {
            1
        } else {
            0
        };
        let shifting: usize = if self.rx_shift.is_some() {
            1
        } else {
            0
        };
        held + shifting
    }

    pub fn rx_full(&self) -> (r: bool)
        ensures
            r == self@.rx_full,
    {
        self.rx_full
    }

    pub fn tx_buffer_empty(&self) -> (r: bool)
        ensures
            r == (self@.tx_holding is None),
    {
        self.tx_holding.is_none()
    }

    /// Starts one serial receive frame on an idle line. A full unread holding
    /// register does not stop the receiver; the overwrite happens only when
    /// this frame completes.
    pub fn queue_received_character(&mut self, value: u8)
        ensures
            final(self)@ == if old(self)@.rx_shift is Some {
                old(self)@
            } else {
                SioView {
                    rx_shift: Some((value, false, false)),
                    rx_bits_remaining: spec_frame_bits(old(self)@.config.format),
                    ..old(self)@
                }
            },
    {
        if !self.receive_line_idle() {
            return ;
        }
        self.rx_shift = Some((value, false, false));
        self.rx_bits_remaining = self.config.format.frame_bits();
    }

    /// Bypasses line time but keeps the holding-register and overrun rules.
    pub fn debugger_inject_received_character(&mut self, value: u8)
        ensures
            final(self)@ == spec_complete_received(old(self)@, value, false, false),
    {
        self.complete_received_character(value, false, false);
    }

    fn complete_received_character(&mut self, value: u8, framing_error: bool, parity_error: bool)
        ensures
            final(self)@ == spec_complete_received(old(self)@, value, framing_error, parity_error),
    {
        self.overrun = self.rx_full;
        let bits = self.config.format.data_bits.bits();
        let mask: u8 = if bits == 8 {
            0xff
        } else {
            assert(5 <= bits <= 7 ==> (1u16 << bits) >= 1 && ((1u16 << bits) - 1) as u8 == if bits == 5 {
                0x1fu8
            } else if bits == 6 {
                0x3fu8
            } else {
                0x7fu8
            }) by (bit_vector);
            ((1u16 << bits) - 1) as u8
        };
        self.rx_data = value & mask;
        self.rx_full = true;
        self.framing_error = framing_error;
        self.parity_error = match self.config.format.parity {
            SioParity::NoParity => false,
            _ => parity_error,
        };
    }

    /// The CPU reads the data channel: RDA resets; the error flags stay.
    pub fn read_data(&mut self) -> (r: u8)
        ensures
            r == old(self)@.rx_data,
            final(self)@ == (SioView { rx_full: false, ..old(self)@ }),
    {
        let value = self.rx_data;
        self.rx_full = false;
        value
    }

    pub fn peek_data(&self) -> (r: u8)
        ensures
            r == self@.rx_data,
    {
        self.rx_data
    }

    pub fn clear_receive_for_debugger(&mut self)
        ensures
            final(self)@ == (SioView {
                rx_full: false,
                rx_shift: None,
                rx_bits_remaining: 0,
                overrun: false,
                framing_error: false,
                parity_error: false,
                ..old(self)@
            }),
    {
        self.rx_full = false;
        self.rx_shift = None;
        self.rx_bits_remaining = 0;
        self.overrun = false;
        self.framing_error = false;
        self.parity_error = false;
    }

    /// An idle transmitter takes the byte into its shift register at once,
    /// so TBMT is high again while the character is still on the line.
    pub fn write_data(&mut self, value: u8)
        ensures
            final(self)@ == spec_promote_tx(SioView { tx_holding: Some(value), ..old(self)@ }),
    {
        self.tx_holding = Some(value);
        if self.tx_shift.is_none() {
            self.promote_tx_holding();
        }
    }

    fn promote_tx_holding(&mut self)
        ensures
            final(self)@ == spec_promote_tx(old(self)@),
    {
        if self.tx_shift.is_some() {
            return ;
        }
        let value = match self.tx_holding.take() {
            Some(v) => v,
            None => return ,
        };
        self.tx_shift = Some(value);
        self.tx_bits_remaining = self.config.format.frame_bits();
    }

    pub fn endpoint_tx_front(&self) -> (r: Option<u8>)
        ensures
            r == (if self@.wire_tx.len() > 0 { Some(self@.wire_tx[0]) } else { None }),
    {
        if self.wire_tx.len() > 0 {
            Some(self.wire_tx[0])
        } else {
            None
        }
    }

    /// The endpoint takes the oldest completely transmitted character.
    pub fn endpoint_tx_complete(&mut self) -> (r: Option<u8>)
        ensures
            old(self)@.wire_tx.len() > 0 ==> r == Some(old(self)@.wire_tx[0]) && final(self)@ == (
            SioView { wire_tx: old(self)@.wire_tx.drop_first(), ..old(self)@ }),
            old(self)@.wire_tx.len() == 0 ==> r is None && final(self)@ == old(self)@,
    {
        let r = self.wire_tx.pop_front();
        assert(self.wire_tx@ =~= old(self)@.wire_tx.drop_first() || old(self)@.wire_tx.len() == 0);
        r
    }

    pub fn endpoint_tx_pending_or_hardware_busy(&self) -> (r: bool)
        ensures
            r == (self@.wire_tx.len() > 0 || self@.tx_holding is Some || self@.tx_shift is Some),
    {
        self.wire_tx.len() > 0 || self.tx_holding.is_some() || self.tx_shift.is_some()
    }

    pub fn clear_transmit_for_debugger(&mut self)
        ensures
            final(self)@ == (SioView {
                tx_holding: None,
                tx_shift: None,
                tx_bits_remaining: 0,
                wire_tx: Seq::empty(),
                ..old(self)@
            }),
    {
        self.tx_holding = None;
        self.tx_shift = None;
        self.tx_bits_remaining = 0;
        self.wire_tx.clear();
    }

    /// Completes the oldest outgoing character at once: the next one on the
    /// wire, else the one in the shift register, else the one in holding.
    pub fn debugger_complete_one_tx(&mut self) -> (r: Option<u8>)
        ensures
            old(self)@.wire_tx.len() > 0 ==> r == Some(old(self)@.wire_tx[0]) && final(self)@ == (
            SioView { wire_tx: old(self)@.wire_tx.drop_first(), ..old(self)@ }),
            old(self)@.wire_tx.len() == 0 ==> ({
                let p = if old(self)@.tx_shift is None {
                    spec_promote_tx(old(self)@)
                } else {
                    old(self)@
                };
                match p.tx_shift {
                    None => r is None && final(self)@ == p,
                    Some(b) => r == Some(b) && final(self)@ == spec_promote_tx(
                        SioView { tx_shift: None, tx_bits_remaining: 0, ..p },
                    ),
                }
            }),
    {
        if self.wire_tx.len() > 0 {
            let r = self.wire_tx.pop_front();
            assert(self.wire_tx@ =~= old(self)@.wire_tx.drop_first());
            return r;
        }
        if self.tx_shift.is_none() {
            self.promote_tx_holding();
        }
        let byte = match self.tx_shift.take() {
            Some(b) => b,
            None => return None,
        };
        self.tx_bits_remaining = 0;
        self.promote_tx_holding();
        Some(byte)
    }

    /// Rev 0: RDA on D5 and TBMT on D1, both active high. Rev 1: receive
    /// ready on D0 and transmit-buffer empty on D7, both active low. The
    /// error flags sit on D4:D2 in both.
    pub fn status(&self) -> (r: u8)
        ensures
            r == spec_sio_status(self@),
    {
        let errors: u8 = (if self.overrun {
            0x10u8
        } else {
            0u8
        }) | (if self.framing_error {
            0x08u8
        } else {
            0u8
        }) | (if self.parity_error {
            0x04u8
        } else {
            0u8
        });
        match self.config.revision {
            SioRevision::Rev0 => errors | (if self.rx_full {
                0x20u8
            } else {
                0u8
            }) | (if self.tx_buffer_empty() {
                0x02u8
            } else {
                0u8
            }),
            SioRevision::Rev1 => errors | (if !self.rx_full {
                0x01u8
            } else {
                0u8
            }) | (if !self.tx_buffer_empty() {
                0x80u8
            } else {
                0u8
            }),
        }
    }

    fn transmitter_bit_boundary(&mut self)
        ensures
            final(self)@ == spec_sio_tx_boundary(old(self)@),
    {
        let byte = match self.tx_shift {
            Some(b) => b,
            None => {
                self.promote_tx_holding();
                return ;
            },
        };
        if self.tx_bits_remaining > 1 {
            self.tx_bits_remaining = self.tx_bits_remaining - 1;
            return ;
        }
        if self.tx_bits_remaining == 1 {
            self.tx_bits_remaining = 0;
            self.tx_shift = None;
            self.wire_tx.push_back(byte);
            self.promote_tx_holding();
        }
    }

    fn receiver_bit_boundary(&mut self)
        ensures
            final(self)@ == spec_sio_rx_boundary(old(self)@),
    {
        let (value, framing_error, parity_error) = match self.rx_shift {
            Some(c) => c,
            None => return ,
        };
        if self.rx_bits_remaining > 1 {
            self.rx_bits_remaining = self.rx_bits_remaining - 1;
            return ;
        }
        if self.rx_bits_remaining == 1 {
            self.rx_bits_remaining = 0;
            self.rx_shift = None;
            self.complete_received_character(value, framing_error, parity_error);
        }
    }

    /// Advances the card's own baud clock by elapsed chassis T-states.
    pub fn advance_t_states(&mut self, t_states: u64, cpu_clock_hz: u32)
        ensures
            final(self)@ == spec_sio_advance(old(self)@, t_states, cpu_clock_hz),
    {
        if t_states == 0 || cpu_clock_hz == 0 {
            return ;
        }
        let baud = self.config.baud.baud();
        if baud == 0 {
            return ;
        }
        let total = self.bit_phase_numerator.saturating_add(
            saturating_mul_u64(t_states, baud as u64),
        );
        let threshold = cpu_clock_hz as u64;
        let boundaries = total / threshold;
        self.bit_phase_numerator = total % threshold;
        let ghost start = self@;
        let mut k: u64 = 0;
        while k < boundaries
            invariant
                k <= boundaries,
                spec_sio_boundaries(start, boundaries as nat) == spec_sio_boundaries(
                    self@,
                    (boundaries - k) as nat,
                ),
            decreases boundaries - k,
        {
            self.transmitter_bit_boundary();
            self.receiver_bit_boundary();
            k = k + 1;
        }
    }
}

impl Default for SioPort {
    fn default() -> (r: Self)
        ensures
            r@.config.revision == SioRevision::Rev1,
            r@.config.baud.spec_baud() == 110,
            r@.rx_shift is None && r@.tx_shift is None && r@.wire_tx.len() == 0,
    {
        SioPort::new(SioHardwareConfig::default())
    }
}

/// The COM2502 receiver holding register is one deep: a second character
/// completed before the first is read replaces it and raises overrun.
pub proof fn lemma_overrun_overwrites_unread_character(v: SioView, first: u8, second: u8)
    ensures
        ({
            let after = spec_complete_received(
                spec_complete_received(v, first, false, false),
                second,
                false,
                false,
            );
            &&& after.overrun
            &&& after.rx_full
            &&& after.rx_data == second & spec_data_mask(v.config.format.data_bits)
        }),
{
}

/// Characters leave the transmitter in the order they were written, and a
/// frame takes exactly its frame bits: a byte written to an idle transmitter
/// reaches the wire at the last of its bit boundaries and not before.
pub proof fn lemma_transmit_takes_one_frame(v: SioView, value: u8, k: nat)
    requires
        v.tx_shift is None,
        v.tx_holding is None,
        v.rx_shift is None,
        1 <= k <= spec_frame_bits(v.config.format),
        spec_frame_bits(v.config.format) >= 1,
    ensures
        ({
            let started = spec_promote_tx(SioView { tx_holding: Some(value), ..v });
            let after = spec_sio_boundaries(started, k);
            &&& k < spec_frame_bits(v.config.format) ==> after.wire_tx == v.wire_tx
                && after.tx_shift == Some(value)
            &&& k == spec_frame_bits(v.config.format) ==> after.wire_tx == v.wire_tx.push(value)
                && after.tx_shift is None
        }),
{
    let started = spec_promote_tx(SioView { tx_holding: Some(value), ..v });
    lemma_transmit_steps(started, value, k);
}

proof fn lemma_transmit_steps(s: SioView, value: u8, k: nat)
    requires
        s.tx_shift == Some(value),
        s.tx_holding is None,
        s.rx_shift is None,
        1 <= k <= s.tx_bits_remaining,
    ensures
        ({
            let after = spec_sio_boundaries(s, k);
            &&& k < s.tx_bits_remaining ==> after.wire_tx == s.wire_tx && after.tx_shift == Some(value)
                && after.tx_bits_remaining == s.tx_bits_remaining - k && after.tx_holding is None
                && after.rx_shift is None
            &&& k == s.tx_bits_remaining ==> after.wire_tx == s.wire_tx.push(value)
                && after.tx_shift is None
        }),
    decreases k,
{
    let next = spec_sio_rx_boundary(spec_sio_tx_boundary(s));
    if k == 1 {
    } else {
        lemma_transmit_steps(next, value, (k - 1) as nat);
    }
}

} // verus!
