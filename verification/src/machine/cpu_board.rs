//! The Altair CPU board between the 8080 package and the S-100 bus.
//!
//! The CPU board turns the 8080's one bidirectional D0-D7 bus into the two
//! independent S-100 directions, DI and DO. Keeping the three domains apart
//! stops the front panel, debugger and package view from treating one byte
//! as three different nets.

use vstd::prelude::*;
use crate::cpu8080_cycle::{TickTrace, TState};
use crate::cpu8080_cycle::timing::spec_status_word;

verus! {

/// What the CPU board presents to the S-100 bus in one T-state.
#[derive(Clone, Copy, Debug, PartialEq, Eq, Structural)]
pub struct S100CpuSample {
    pub address: Option<u16>,
    pub cpu_data: Option<u8>,
    pub data_in: Option<u8>,
    pub data_out: Option<u8>,
    /// Status latch update where no exact SYNC+PHI1 edge exists.
    pub status_word: Option<u8>,
    pub inte: bool,
    pub ready: bool,
    pub wait: bool,
    pub hlda: bool,
}

/// S-100 and front-panel control lines presented to a CPU board; `interrupt`
/// is PINT.
#[derive(Clone, Copy, Debug, PartialEq, Eq, Structural)]
pub struct S100CpuControlLines {
    pub ready: bool,
    pub interrupt: bool,
    pub hold: bool,
    pub reset: bool,
}

/// The data bus in its three domains: (package D, S-100 DI, S-100 DO). A
/// granted hold floats everything; a byte the package drives goes out on DO;
/// a byte read in arrives on DI, except that a front-panel injection strobes
/// the package bus directly and shows on DO.
pub open spec fn spec_data_domains(
    trace: TickTrace,
    visible_data: Option<u8>,
    front_panel_direct: bool,
) -> (Option<u8>, Option<u8>, Option<u8>) {
    if trace.pins.hlda {
        (None, None, None)
    } else if trace.pins.data_out is Some {
        (trace.pins.data_out, None, trace.pins.data_out)
    } else {
        match visible_data {
            Some(value) => if front_panel_direct {
                (Some(value), None, Some(value))
            } else {
                (Some(value), Some(value), None)
            },
            None => (None, None, None),
        }
    }
}

pub struct Cycle8080S100Adapter;

impl Cycle8080S100Adapter {
    /// One package T-state as the S-100 bus sees it. Normal status is not
    /// latched here: the MITS 8212 captures it at SYNC+PHI1. Only the halt
    /// dwell restores it, since no new SYNC occurs while the processor stays
    /// halted.
    pub fn sample_with_front_panel_direct(
        trace: &TickTrace,
        visible_data: Option<u8>,
        front_panel_direct: bool,
        ready: bool,
    ) -> (r: S100CpuSample)
        ensures
            r.address == trace.pins.address,
            (r.cpu_data, r.data_in, r.data_out) == spec_data_domains(
                *trace,
                visible_data,
                front_panel_direct,
            ),
            r.status_word == if !trace.pins.hlda && trace.t_state == TState::Thalt {
                spec_status_word(trace.machine_cycle)
            } else {
                None
            },
            r.inte == trace.pins.inte,
            r.ready == ready,
            r.wait == trace.pins.wait,
            r.hlda == trace.pins.hlda,
    {
        let status_word = if !trace.pins.hlda && trace.t_state == TState::Thalt {
            trace.machine_cycle.status_word()
        } else {
            None
        };
        let (cpu_data, data_in, data_out) = if trace.pins.hlda {
            (None, None, None)
        } else if let Some(value) = trace.pins.data_out {
            (Some(value), None, Some(value))
        } else if let Some(value) = visible_data {
            if front_panel_direct {
                (Some(value), None, Some(value))
            } else {
                (Some(value), Some(value), None)
            }
        } else {
            (None, None, None)
        };
        S100CpuSample {
            address: trace.pins.address,
            cpu_data,
            data_in,
            data_out,
            status_word,
            inte: trace.pins.inte,
            ready,
            wait: trace.pins.wait,
            hlda: trace.pins.hlda,
        }
    }
}

/// DI and DO never carry a byte at the same time, and whatever either
/// carries is the byte on the package bus.
pub proof fn lemma_data_directions_are_exclusive(
    trace: TickTrace,
    visible_data: Option<u8>,
    front_panel_direct: bool,
)
    ensures
        ({
            let d = spec_data_domains(trace, visible_data, front_panel_direct);
            &&& !(d.1 is Some && d.2 is Some)
            &&& d.1 is Some ==> d.1 == d.0
            &&& d.2 is Some ==> d.2 == d.0
            &&& trace.pins.hlda ==> d == (None::<u8>, None::<u8>, None::<u8>)
        }),
{
}

} // verus!
