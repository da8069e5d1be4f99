//! The emulator-side state of a host COM/serial link.
//!
//! A worker thread owns the operating-system serial handle and reports what
//! happened as events; the emulator thread only moves bytes and control
//! requests. This module is what the emulator thread decides: how each
//! worker event changes the link, how received bytes queue up (bounded, with
//! overflow counted rather than blocking), and how transmit and BREAK
//! requests are accounted once the command channel has accepted or refused
//! them.

use std::collections::VecDeque;
use vstd::prelude::*;
use crate::machine::fd400::sat_add;

verus! {

/// Received bytes waiting for the emulated UART; more are dropped.
pub const RX_QUEUE_LIMIT: usize = 65_536;
pub const COM_TRACE_LIMIT: usize = 4096;

#[derive(Clone, Copy, Debug, PartialEq, Eq, Structural)]
pub enum ComTransportState {
    Disabled,
    Closed,
    Opening,
    Open,
    Error,
}

/// What the serial worker reports. Modem pins carry RS-232 assertion, not
/// MC6850 pin levels.
#[derive(Debug)]
pub enum ComWorkerEvent {
    Opened,
    Rx(Vec<u8>),
    ModemPins { cts_asserted: bool, dcd_asserted: bool },
    Error(String),
    Closed,
}

/// One traced byte: sequence, direction (true for inbound), byte, port.
#[derive(Clone, Debug)]
pub struct ComTraceEvent {
    pub sequence: u64,
    pub inbound: bool,
    pub byte: u8,
    pub port_name: String,
}

/// The link as mathematical values.
pub struct ComLinkView {
    pub state: ComTransportState,
    pub rx_queue: Seq<u8>,
    pub rx_bytes: u64,
    pub tx_bytes: u64,
    pub dropped_rx_bytes: u64,
    pub dropped_tx_bytes: u64,
    pub last_error: Option<Seq<char>>,
    pub modem_pins_asserted: Option<(bool, bool)>,
    pub break_sent: Option<bool>,
    pub restart_requested: bool,
    pub trace_enabled: bool,
    /// (sequence, inbound, byte, port name) of each traced byte.
    pub trace: Seq<(u64, bool, u8, Seq<char>)>,
    pub next_trace_sequence: u64,
}

pub struct ComLink {
    state: ComTransportState,
    rx_queue: VecDeque<u8>,
    rx_bytes: u64,
    tx_bytes: u64,
    dropped_rx_bytes: u64,
    dropped_tx_bytes: u64,
    last_error: Option<String>,
    modem_pins_asserted: Option<(bool, bool)>,
    break_sent: Option<bool>,
    restart_requested: bool,
    trace_enabled: bool,
    trace: VecDeque<ComTraceEvent>,
    next_trace_sequence: u64,
}

pub open spec fn spec_trace_entry(e: ComTraceEvent) -> (u64, bool, u8, Seq<char>) {
    (e.sequence, e.inbound, e.byte, e.port_name@)
}

impl View for ComLink {
    type V = ComLinkView;

    closed spec fn view(&self) -> ComLinkView {
        ComLinkView {
            state: self.state,
            rx_queue: self.rx_queue@,
            rx_bytes: self.rx_bytes,
            tx_bytes: self.tx_bytes,
            dropped_rx_bytes: self.dropped_rx_bytes,
            dropped_tx_bytes: self.dropped_tx_bytes,
            last_error: match self.last_error {
                Some(e) => Some(e@),
                None => None,
            },
            modem_pins_asserted: self.modem_pins_asserted,
            break_sent: self.break_sent,
            restart_requested: self.restart_requested,
            trace_enabled: self.trace_enabled,
            trace: self.trace@.map_values(|e: ComTraceEvent| spec_trace_entry(e)),
            next_trace_sequence: self.next_trace_sequence,
        }
    }
}

/// The newest `COM_TRACE_LIMIT` trace entries.
pub open spec fn spec_keep_newest_trace(t: Seq<(u64, bool, u8, Seq<char>)>) -> Seq<(u64, bool, u8, Seq<char>)> {
    if t.len() > COM_TRACE_LIMIT {
        t.subrange(t.len() - COM_TRACE_LIMIT, t.len() as int)
    } else {
        t
    }
}

pub open spec fn spec_record_trace(v: ComLinkView, inbound: bool, byte: u8, port: Seq<char>) -> ComLinkView {
    if !v.trace_enabled {
        v
    } else {
        ComLinkView {
            trace: spec_keep_newest_trace(v.trace.push((v.next_trace_sequence, inbound, byte, port))),
            next_trace_sequence: sat_add(v.next_trace_sequence, 1),
            ..v
        }
    }
}

/// One received byte: counted and traced, then queued while the queue has
/// room, else counted as dropped.
pub open spec fn spec_receive_byte(v: ComLinkView, byte: u8, port: Seq<char>) -> ComLinkView {
    let t = spec_record_trace(ComLinkView { rx_bytes: sat_add(v.rx_bytes, 1), ..v }, true, byte, port);
    if t.rx_queue.len() < RX_QUEUE_LIMIT {
        ComLinkView { rx_queue: t.rx_queue.push(byte), ..t }
    } else {
        ComLinkView { dropped_rx_bytes: sat_add(t.dropped_rx_bytes, 1), ..t }
    }
}

pub open spec fn spec_receive_bytes(v: ComLinkView, bytes: Seq<u8>, port: Seq<char>) -> ComLinkView
    decreases bytes.len(),
{
    if bytes.len() == 0 {
        v
    } else {
        spec_receive_bytes(spec_receive_byte(v, bytes[0], port), bytes.drop_first(), port)
    }
}

/// The structural invariant: the queue and the trace never exceed their
/// limits.
pub open spec fn spec_com_link_wf(v: ComLinkView) -> bool {
    &&& v.rx_queue.len() <= RX_QUEUE_LIMIT
    &&& v.trace.len() <= COM_TRACE_LIMIT
}

impl ComLink {
    pub fn new() -> (r: Self)
        ensures
            r@.state == ComTransportState::Disabled,
            r@.rx_queue.len() == 0,
            r@.rx_bytes == 0 && r@.tx_bytes == 0,
            r@.dropped_rx_bytes == 0 && r@.dropped_tx_bytes == 0,
            r@.last_error is None,
            r@.modem_pins_asserted is None,
            r@.break_sent is None,
            !r@.restart_requested,
            !r@.trace_enabled,
            r@.trace.len() == 0,
            r@.next_trace_sequence == 1,
            spec_com_link_wf(r@),
    {
        let r = ComLink {
            state: ComTransportState::Disabled,
            rx_queue: VecDeque::new(),
            rx_bytes: 0,
            tx_bytes: 0,
            dropped_rx_bytes: 0,
            dropped_tx_bytes: 0,
            last_error: None,
            modem_pins_asserted: None,
            break_sent: None,
            restart_requested: false,
            trace_enabled: false,
            trace: VecDeque::new(),
            next_trace_sequence: 1,
        };
        assert(r@.trace =~= Seq::empty());
        r
    }

    fn record_trace(&mut self, inbound: bool, byte: u8, port_name: &str)
        requires
            spec_com_link_wf(old(self)@),
        ensures
            final(self)@ == spec_record_trace(old(self)@, inbound, byte, port_name@),
            spec_com_link_wf(final(self)@),
    {
        if !self.trace_enabled {
            return ;
        }
        let ghost before = self.trace@;
        self.trace.push_back(
            ComTraceEvent {
                sequence: self.next_trace_sequence,
                inbound,
                byte,
                port_name: port_name.to_owned(),
            },
        );
        self.next_trace_sequence = self.next_trace_sequence.saturating_add(1);
        let ghost pushed = self.trace@;
        assert(pushed.map_values(|e: ComTraceEvent| spec_trace_entry(e)) =~= old(self)@.trace.push(
            (old(self)@.next_trace_sequence, inbound, byte, port_name@),
        ));
        if self.trace.len() > COM_TRACE_LIMIT {
            self.trace.pop_front();
            assert(self@.trace =~= spec_keep_newest_trace(
                old(self)@.trace.push((old(self)@.next_trace_sequence, inbound, byte, port_name@)),
            ));
        }
    }

    fn receive_byte(&mut self, byte: u8, port_name: &str)
        requires
            spec_com_link_wf(old(self)@),
        ensures
            final(self)@ == spec_receive_byte(old(self)@, byte, port_name@),
            spec_com_link_wf(final(self)@),
    {
        self.rx_bytes = self.rx_bytes.saturating_add(1);
        self.record_trace(true, byte, port_name);
        if self.rx_queue.len() < RX_QUEUE_LIMIT {
            self.rx_queue.push_back(byte);
        } else {
            self.dropped_rx_bytes = self.dropped_rx_bytes.saturating_add(1);
        }
    }

    /// Applies one worker event. Opening clears the last error; an error
    /// sticks until the link is restarted, so a later Closed leaves it.
    pub fn apply_event(&mut self, event: ComWorkerEvent, port_name: &str)
        requires
            spec_com_link_wf(old(self)@),
        ensures
            spec_com_link_wf(final(self)@),
            match event {
                ComWorkerEvent::Opened => final(self)@ == (ComLinkView {
                    state: ComTransportState::Open,
                    last_error: None,
                    ..old(self)@
                }),
                ComWorkerEvent::Rx(bytes) => final(self)@ == spec_receive_bytes(old(self)@, bytes@, port_name@),
                ComWorkerEvent::ModemPins { cts_asserted, dcd_asserted } => final(self)@ == (ComLinkView {
                    modem_pins_asserted: Some((cts_asserted, dcd_asserted)),
                    ..old(self)@
                }),
                ComWorkerEvent::Error(e) => final(self)@ == (ComLinkView {
                    state: ComTransportState::Error,
                    last_error: Some(e@),
                    ..old(self)@
                }),
                ComWorkerEvent::Closed => final(self)@ == (ComLinkView {
                    state: if old(self)@.state == ComTransportState::Error {
                        ComTransportState::Error
                    } else {
                        ComTransportState::Closed
                    },
                    ..old(self)@
                }),
            },
    {
        match event {
            ComWorkerEvent::Opened => {
                self.state = ComTransportState::Open;
                self.last_error = None;
            },
            ComWorkerEvent::Rx(bytes) => {
                let mut i: usize = 0;
                assert(bytes@.subrange(0, bytes@.len() as int) =~= bytes@);
                while i < bytes.len()
                    invariant
                        i <= bytes@.len(),
                        spec_com_link_wf(self@),
                        spec_receive_bytes(old(self)@, bytes@, port_name@) == spec_receive_bytes(
                            self@,
                            bytes@.subrange(i as int, bytes@.len() as int),
                            port_name@,
                        ),
                    decreases bytes@.len() - i,
                {
                    let ghost rest = bytes@.subrange(i as int, bytes@.len() as int);
                    assert(rest.drop_first() =~= bytes@.subrange(i + 1, bytes@.len() as int));
                    self.receive_byte(bytes[i], port_name);
                    i = i + 1;
                }
                assert(bytes@.subrange(bytes@.len() as int, bytes@.len() as int) =~= Seq::<u8>::empty());
            },
            ComWorkerEvent::ModemPins { cts_asserted, dcd_asserted } => {
                self.modem_pins_asserted = Some((cts_asserted, dcd_asserted));
            },
            ComWorkerEvent::Error(error) => {
                self.state = ComTransportState::Error;
                self.last_error = Some(error);
            },
            ComWorkerEvent::Closed => {
                if self.state != ComTransportState::Error {
                    self.state = ComTransportState::Closed;
                }
            },
        }
    }

    /// The worker's event channel has gone away: the link is closed unless
    /// it already failed.
    pub fn events_disconnected(&mut self)
        ensures
            final(self)@ == (ComLinkView {
                state: if old(self)@.state == ComTransportState::Error {
                    ComTransportState::Error
                } else {
                    ComTransportState::Closed
                },
                ..old(self)@
            }),
    {
        if self.state != ComTransportState::Error {
            self.state = ComTransportState::Closed;
        }
    }

    /// Accounts one transmit request once the command channel accepted it
    /// (`sent`) or refused it (full, gone, or no worker).
    pub fn note_tx(&mut self, byte: u8, port_name: &str, sent: bool)
        requires
            spec_com_link_wf(old(self)@),
        ensures
            spec_com_link_wf(final(self)@),
            sent ==> final(self)@ == spec_record_trace(
                ComLinkView { tx_bytes: sat_add(old(self)@.tx_bytes, 1), ..old(self)@ },
                false,
                byte,
                port_name@,
            ),
            !sent ==> final(self)@ == (ComLinkView {
                dropped_tx_bytes: sat_add(old(self)@.dropped_tx_bytes, 1),
                ..old(self)@
            }),
    {
        if sent {
            self.tx_bytes = self.tx_bytes.saturating_add(1);
            self.record_trace(false, byte, port_name);
        } else {
            self.dropped_tx_bytes = self.dropped_tx_bytes.saturating_add(1);
        }
    }

    /// BREAK is a continuous spacing condition: a request for the level
    /// already sent needs no command.
    pub fn break_command_needed(&self, active: bool) -> (r: bool)
        ensures
            r == (self@.break_sent != Some(active)),
    {
        self.break_sent != Some(active)
    }

    /// Records whether the BREAK command for `active` reached the worker;
    /// when it did not, the line level is unknown.
    pub fn note_break(&mut self, active: bool, sent: bool)
        ensures
            final(self)@ == (ComLinkView {
                break_sent: if sent {
                    Some(active)
                } else {
                    None
                },
                ..old(self)@
            }),
    {
        self.break_sent = if sent {
            Some(active)
        } else {
            None
        };
    }

    /// A fresh worker is starting: nothing received, no error, modem and
    /// BREAK state unknown.
    pub fn begin_opening(&mut self)
        ensures
            final(self)@ == (ComLinkView {
                state: ComTransportState::Opening,
                rx_queue: Seq::empty(),
                last_error: None,
                modem_pins_asserted: None,
                break_sent: None,
                restart_requested: false,
                ..old(self)@
            }),
    {
        self.rx_queue.clear();
        self.last_error = None;
        self.modem_pins_asserted = None;
        self.break_sent = None;
        self.restart_requested = false;
        self.state = ComTransportState::Opening;
    }

    /// The worker thread could not be started.
    pub fn worker_failed(&mut self, error: String)
        ensures
            final(self)@ == (ComLinkView {
                state: ComTransportState::Error,
                last_error: Some(error@),
                ..old(self)@
            }),
    {
        self.state = ComTransportState::Error;
        self.last_error = Some(error);
    }

    /// The worker was stopped: queued input and the modem and BREAK state go
    /// with it.
    pub fn worker_stopped(&mut self)
        ensures
            final(self)@ == (ComLinkView {
                rx_queue: Seq::empty(),
                modem_pins_asserted: None,
                break_sent: None,
                ..old(self)@
            }),
    {
        self.rx_queue.clear();
        self.modem_pins_asserted = None;
        self.break_sent = None;
    }

    /// The link is switched off.
    pub fn disable(&mut self)
        ensures
            final(self)@ == (ComLinkView { state: ComTransportState::Disabled, ..old(self)@ }),
    {
        self.state = ComTransportState::Disabled;
    }

    /// The link is switched on without a port to open.
    pub fn require_port(&mut self)
        ensures
            final(self)@.state == ComTransportState::Closed,
            final(self)@.last_error == Some("Select a COM/serial port before opening the endpoint"@),
            final(self)@ == (ComLinkView {
                state: ComTransportState::Closed,
                last_error: final(self)@.last_error,
                ..old(self)@
            }),
    {
        self.state = ComTransportState::Closed;
        self.last_error = Some("Select a COM/serial port before opening the endpoint".to_owned());
    }

    /// A worker is (re)started when a restart was asked for or the wanted
    /// port settings differ from the running ones.
    pub fn needs_restart(&self, settings_unchanged: bool) -> (r: bool)
        ensures
            r == (self@.restart_requested || !settings_unchanged),
    {
        self.restart_requested || !settings_unchanged
    }

    pub fn restart_on_next_poll(&mut self)
        ensures
            final(self)@ == (ComLinkView { restart_requested: true, last_error: None, ..old(self)@ }),
    {
        self.restart_requested = true;
        self.last_error = None;
    }

    /// The oldest received byte.
    pub fn pop_rx(&mut self) -> (r: Option<u8>)
        ensures
            old(self)@.rx_queue.len() > 0 ==> r == Some(old(self)@.rx_queue[0]) && final(self)@ == (
            ComLinkView { rx_queue: old(self)@.rx_queue.drop_first(), ..old(self)@ }),
            old(self)@.rx_queue.len() == 0 ==> r is None && final(self)@ == old(self)@,
    {
        let r = self.rx_queue.pop_front();
        assert(self.rx_queue@ =~= old(self)@.rx_queue.drop_first() || old(self)@.rx_queue.len() == 0);
        r
    }

    /// Forgets queued input (the worker is also told to clear its side).
    pub fn clear_rx(&mut self)
        ensures
            final(self)@ == (ComLinkView { rx_queue: Seq::empty(), ..old(self)@ }),
    {
        self.rx_queue.clear();
    }

    pub fn state(&self) -> (r: ComTransportState)
        ensures
            r == self@.state,
    {
        self.state
    }

    pub fn rx_pending(&self) -> (r: usize)
        ensures
            r == self@.rx_queue.len(),
    {
        self.rx_queue.len()
    }

    pub fn rx_bytes(&self) -> (r: u64)
        ensures
            r == self@.rx_bytes,
    {
        self.rx_bytes
    }

    pub fn tx_bytes(&self) -> (r: u64)
        ensures
            r == self@.tx_bytes,
    {
        self.tx_bytes
    }

    pub fn dropped_rx_bytes(&self) -> (r: u64)
        ensures
            r == self@.dropped_rx_bytes,
    {
        self.dropped_rx_bytes
    }

    pub fn dropped_tx_bytes(&self) -> (r: u64)
        ensures
            r == self@.dropped_tx_bytes,
    {
        self.dropped_tx_bytes
    }

    pub fn last_error(&self) -> (r: &Option<String>)
        ensures
            match r {
                Some(e) => self@.last_error == Some(e@),
                None => self@.last_error is None,
            },
    {
        &self.last_error
    }

    pub fn modem_pins_asserted(&self) -> (r: Option<(bool, bool)>)
        ensures
            r == self@.modem_pins_asserted,
    {
        self.modem_pins_asserted
    }

    pub fn trace_enabled(&self) -> (r: bool)
        ensures
            r == self@.trace_enabled,
    {
        self.trace_enabled
    }

    pub fn set_trace_enabled(&mut self, enabled: bool)
        ensures
            final(self)@ == (ComLinkView { trace_enabled: enabled, ..old(self)@ }),
    {
        self.trace_enabled = enabled;
    }

    pub fn clear_trace(&mut self)
        ensures
            final(self)@ == (ComLinkView { trace: Seq::empty(), ..old(self)@ }),
    {
        self.trace.clear();
        assert(self@.trace =~= Seq::empty());
    }

    /// The traced bytes, oldest first.
    pub fn trace_snapshot(&self) -> (r: Vec<(u64, bool, u8, String)>)
        ensures
            r@.len() == self@.trace.len(),
            forall|i: int|
                0 <= i < r@.len() ==> (#[trigger] r@[i]).0 == self@.trace[i].0 && r@[i].1 == self@.trace[i].1
                    && r@[i].2 == self@.trace[i].2 && r@[i].3@ == self@.trace[i].3,
    {
        let mut out: Vec<(u64, bool, u8, String)> = Vec::new();
        let mut i: usize = 0;
        while i < self.trace.len()
            invariant
                i <= self.trace@.len(),
                out@.len() == i,
                forall|k: int|
                    0 <= k < i ==> (#[trigger] out@[k]).0 == self@.trace[k].0 && out@[k].1 == self@.trace[k].1
                        && out@[k].2 == self@.trace[k].2 && out@[k].3@ == self@.trace[k].3,
            decreases self.trace@.len() - i,
        {
            let e = &self.trace[i];
            out.push((e.sequence, e.inbound, e.byte, e.port_name.clone()));
            i = i + 1;
        }
        out
    }
}

impl Default for ComLink {
    fn default() -> (r: Self)
        ensures
            r@.state == ComTransportState::Disabled,
            spec_com_link_wf(r@),
    {
        ComLink::new()
    }
}

/// Every received byte is accounted exactly once: it is either queued or
/// counted as dropped, and the queue never outgrows its limit.
pub proof fn lemma_received_bytes_are_queued_or_dropped(v: ComLinkView, bytes: Seq<u8>, port: Seq<char>)
    requires
        spec_com_link_wf(v),
        v.rx_bytes + bytes.len() <= u64::MAX,
        v.dropped_rx_bytes + bytes.len() <= u64::MAX,
    ensures
        ({
            let after = spec_receive_bytes(v, bytes, port);
            &&& after.rx_bytes == v.rx_bytes + bytes.len()
            &&& (after.rx_queue.len() - v.rx_queue.len()) + (after.dropped_rx_bytes - v.dropped_rx_bytes)
                == bytes.len()
            &&& after.rx_queue.len() <= RX_QUEUE_LIMIT
            &&& after.state == v.state
        }),
    decreases bytes.len(),
{
    if bytes.len() > 0 {
        let next = spec_receive_byte(v, bytes[0], port);
        lemma_received_bytes_are_queued_or_dropped(next, bytes.drop_first(), port);
    }
}

} // verus!
