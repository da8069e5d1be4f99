//! The I/O trace kept by the serial device hub: a bounded log of port events
//! in which a run of identical events is one entry with a repeat count, and
//! a per-port record of the last value and the number of INs and OUTs.

use std::collections::VecDeque;
use vstd::prelude::*;
use crate::machine::fd400::sat_add;

verus! {

/// At most this many events are kept; the oldest go first.
pub const IO_TRACE_LIMIT: usize = 4096;

pub const IO_TRACE_IN: u8 = 0;
pub const IO_TRACE_OUT: u8 = 1;
pub const IO_TRACE_RX_ENQUEUE: u8 = 2;
pub const IO_TRACE_TX_COMPLETE: u8 = 3;

/// What one port has seen: last IN value, last OUT value, IN count, OUT count.
#[derive(Clone, Copy, Debug, PartialEq, Eq, Structural)]
pub struct IoPortActivity {
    pub last_in: Option<u8>,
    pub last_out: Option<u8>,
    pub in_count: u64,
    pub out_count: u64,
}

pub open spec fn spec_idle_activity() -> IoPortActivity {
    IoPortActivity { last_in: None, last_out: None, in_count: 0, out_count: 0 }
}

impl IoPortActivity {
    pub fn idle() -> (r: Self)
        ensures
            r == spec_idle_activity(),
    {
        IoPortActivity { last_in: None, last_out: None, in_count: 0, out_count: 0 }
    }
}

/// One trace entry: sequence number, kind, port, value, repeat count.
#[derive(Clone, Copy, Debug, PartialEq, Eq, Structural)]
pub struct IoTraceEvent {
    pub sequence: u64,
    pub kind: u8,
    pub port: u8,
    pub value: u8,
    pub repeat: u32,
}

/// The trace as mathematical values.
pub struct IoTraceView {
    pub enabled: bool,
    pub events: Seq<IoTraceEvent>,
    pub ports: Seq<IoPortActivity>,
    pub next_sequence: u64,
}

pub struct IoTrace {
    enabled: bool,
    events: VecDeque<IoTraceEvent>,
    ports: Vec<IoPortActivity>,
    next_sequence: u64,
}

impl View for IoTrace {
    type V = IoTraceView;

    closed spec fn view(&self) -> IoTraceView {
        IoTraceView {
            enabled: self.enabled,
            events: self.events@,
            ports: self.ports@,
            next_sequence: self.next_sequence,
        }
    }
}

pub open spec fn spec_sat_add_u32(a: u32, b: int) -> u32 {
    if a + b > u32::MAX {
        u32::MAX
    } else {
        (a + b) as u32
    }
}

/// An IN or OUT updates the port's last value and count; other kinds leave
/// the port record alone.
pub open spec fn spec_port_after(a: IoPortActivity, kind: u8, value: u8) -> IoPortActivity {
    if kind == IO_TRACE_IN {
        IoPortActivity { last_in: Some(value), in_count: sat_add(a.in_count, 1), ..a }
    } else if kind == IO_TRACE_OUT {
        IoPortActivity { last_out: Some(value), out_count: sat_add(a.out_count, 1), ..a }
    } else {
        a
    }
}

/// The newest `IO_TRACE_LIMIT` events of a log.
pub open spec fn spec_keep_newest(events: Seq<IoTraceEvent>) -> Seq<IoTraceEvent> {
    if events.len() > IO_TRACE_LIMIT {
        events.subrange(events.len() - IO_TRACE_LIMIT, events.len() as int)
    } else {
        events
    }
}

pub open spec fn spec_same_event(e: IoTraceEvent, kind: u8, port: u8, value: u8) -> bool {
    e.kind == kind && e.port == port && e.value == value
}

pub open spec fn spec_record(t: IoTraceView, kind: u8, port: u8, value: u8) -> IoTraceView {
    if !t.enabled {
        t
    } else {
        let ports = t.ports.update(port as int, spec_port_after(t.ports[port as int], kind, value));
        if t.events.len() > 0 && spec_same_event(t.events.last(), kind, port, value) {
            let last = t.events.last();
            IoTraceView {
                ports,
                events: t.events.update(
                    t.events.len() - 1,
                    IoTraceEvent { repeat: spec_sat_add_u32(last.repeat, 1), ..last },
                ),
                ..t
            }
        } else {
            IoTraceView {
                ports,
                events: spec_keep_newest(
                    t.events.push(
                        IoTraceEvent { sequence: t.next_sequence, kind, port, value, repeat: 1 },
                    ),
                ),
                next_sequence: sat_add(t.next_sequence, 1),
                ..t
            }
        }
    }
}

/// The trace's own invariant: one record per port and a bounded log.
pub open spec fn spec_trace_wf(t: IoTraceView) -> bool {
    &&& t.ports.len() == 256
    &&& t.events.len() <= IO_TRACE_LIMIT
}

/// Sequence numbers increase along the log and stay below the next one to be
/// handed out.
pub open spec fn spec_sequences_increasing(t: IoTraceView) -> bool {
    &&& forall|i: int, j: int|
        0 <= i < j < t.events.len() ==> #[trigger] t.events[i].sequence < #[trigger] t.events[j].sequence
    &&& forall|i: int| 0 <= i < t.events.len() ==> #[trigger] t.events[i].sequence < t.next_sequence
}

impl IoTrace {
    pub fn new() -> (r: Self)
        ensures
            r@.enabled == false,
            r@.events.len() == 0,
            r@.ports == Seq::new(256, |i: int| spec_idle_activity()),
            r@.next_sequence == 1,
            spec_trace_wf(r@),
            spec_sequences_increasing(r@),
    {
        let mut ports: Vec<IoPortActivity> = Vec::new();
        while ports.len() < 256
            invariant
                ports@.len() <= 256,
                forall|i: int| 0 <= i < ports@.len() ==> ports@[i] == spec_idle_activity(),
            decreases 256 - ports@.len(),
        {
            ports.push(IoPortActivity::idle());
        }
        let r = IoTrace { enabled: false, events: VecDeque::new(), ports, next_sequence: 1 };
        assert(r@.ports =~= Seq::new(256, |i: int| spec_idle_activity()));
        r
    }

    /// Records one port event while tracing is enabled.
    pub fn record(&mut self, kind: u8, port: u8, value: u8)
        requires
            spec_trace_wf(old(self)@),
        ensures
            final(self)@ == spec_record(old(self)@, kind, port, value),
            spec_trace_wf(final(self)@),
            spec_sequences_increasing(old(self)@) && old(self)@.next_sequence < u64::MAX
                ==> spec_sequences_increasing(final(self)@),
    {
        if !self.enabled {
            return ;
        }
        let index = port as usize;
        let activity = self.ports[index];
        let updated = if kind == IO_TRACE_IN {
            IoPortActivity {
                last_in: Some(value),
                in_count: activity.in_count.saturating_add(1),
                ..activity
            }
        } else if kind == IO_TRACE_OUT {
            IoPortActivity {
                last_out: Some(value),
                out_count: activity.out_count.saturating_add(1),
                ..activity
            }
        } else {
            activity
        };
        self.ports.set(index, updated);
        let ghost events_before = self.events@;
        match self.events.pop_back() {
            Some(last) => {
                if last.kind == kind && last.port == port && last.value == value {
                    self.events.push_back(
                        IoTraceEvent { repeat: last.repeat.saturating_add(1), ..last },
                    );
                    assert(self.events@ =~= events_before.update(
                        events_before.len() - 1,
                        IoTraceEvent { repeat: spec_sat_add_u32(last.repeat, 1), ..last },
                    ));
                    return ;
                }
                self.events.push_back(last);
                assert(self.events@ =~= events_before);
            },
            None => {},
        }
        self.events.push_back(
            IoTraceEvent { sequence: self.next_sequence, kind, port, value, repeat: 1 },
        );
        self.next_sequence = self.next_sequence.saturating_add(1);
        let ghost pushed = self.events@;
        if self.events.len() > IO_TRACE_LIMIT {
            self.events.pop_front();
            assert(self.events@ =~= pushed.subrange(pushed.len() - IO_TRACE_LIMIT, pushed.len() as int));
        }
    }

    pub fn set_enabled(&mut self, enabled: bool)
        ensures
            final(self)@ == (IoTraceView { enabled, ..old(self)@ }),
    {
        self.enabled = enabled;
    }

    pub fn enabled(&self) -> (r: bool)
        ensures
            r == self@.enabled,
    {
        self.enabled
    }

    /// Forgets all events and port activity; sequence numbers keep counting.
    pub fn clear_events(&mut self)
        requires
            old(self)@.ports.len() == 256,
        ensures
            final(self)@ == (IoTraceView {
                events: Seq::empty(),
                ports: Seq::new(256, |i: int| spec_idle_activity()),
                ..old(self)@
            }),
    {
        self.events.clear();
        assert(self.events@ =~= Seq::<IoTraceEvent>::empty());
        let mut i: usize = 0;
        while i < self.ports.len()
            invariant
                self.events@ == Seq::<IoTraceEvent>::empty(),
                self.enabled == old(self)@.enabled,
                self.next_sequence == old(self)@.next_sequence,
                self.ports@.len() == 256,
                i <= 256,
                forall|j: int| 0 <= j < i ==> self.ports@[j] == spec_idle_activity(),
            decreases 256 - i,
        {
            self.ports.set(i, IoPortActivity::idle());
            i = i + 1;
        }
        assert(self.ports@ =~= Seq::new(256, |i: int| spec_idle_activity()));
    }

    /// The events as (sequence, kind, port, value, repeat), oldest first.
    pub fn snapshot(&self) -> (r: Vec<(u64, u8, u8, u8, u32)>)
        ensures
            r@.len() == self@.events.len(),
            forall|i: int|
                0 <= i < r@.len() ==> #[trigger] r@[i] == (
                    self@.events[i].sequence,
                    self@.events[i].kind,
                    self@.events[i].port,
                    self@.events[i].value,
                    self@.events[i].repeat,
                ),
    {
        let mut out: Vec<(u64, u8, u8, u8, u32)> = Vec::new();
        let mut i: usize = 0;
        while i < self.events.len()
            invariant
                i <= self.events@.len(),
                out@.len() == i,
                forall|k: int|
                    0 <= k < i ==> #[trigger] out@[k] == (
                        self@.events[k].sequence,
                        self@.events[k].kind,
                        self@.events[k].port,
                        self@.events[k].value,
                        self@.events[k].repeat,
                    ),
            decreases self.events@.len() - i,
        {
            let e = self.events[i];
            out.push((e.sequence, e.kind, e.port, e.value, e.repeat));
            i = i + 1;
        }
        out
    }

    /// (last IN, last OUT, IN count, OUT count) of one port.
    pub fn port_activity(&self, port: u8) -> (r: (Option<u8>, Option<u8>, u64, u64))
        requires
            self@.ports.len() == 256,
        ensures
            r == (
                self@.ports[port as int].last_in,
                self@.ports[port as int].last_out,
                self@.ports[port as int].in_count,
                self@.ports[port as int].out_count,
            ),
    {
        let a = self.ports[port as usize];
        (a.last_in, a.last_out, a.in_count, a.out_count)
    }
}

/// A run of identical events is kept as one entry: recording the same event
/// again leaves the log length unchanged and raises the last repeat count.
pub proof fn lemma_repeated_event_is_counted(t: IoTraceView, kind: u8, port: u8, value: u8)
    requires
        t.enabled,
        spec_trace_wf(t),
    ensures
        ({
            let once = spec_record(t, kind, port, value);
            let twice = spec_record(once, kind, port, value);
            &&& twice.events.len() == once.events.len()
            &&& twice.events.last().repeat == spec_sat_add_u32(once.events.last().repeat, 1)
            &&& twice.next_sequence == once.next_sequence
        }),
{
    let once = spec_record(t, kind, port, value);
    if !(t.events.len() > 0 && spec_same_event(t.events.last(), kind, port, value)) {
        let pushed = t.events.push(
            IoTraceEvent { sequence: t.next_sequence, kind, port, value, repeat: 1 },
        );
        assert(once.events.last() == pushed.last());
    }
}

} // verus!
