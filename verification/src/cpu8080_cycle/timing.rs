use vstd::prelude::*;

verus! {

/// Intel 8080 machine-cycle classes.
///
/// The externally visible status words match the processor status byte driven
/// on D0-D7 while SYNC is asserted in T1.
#[derive(Clone, Copy, Debug, PartialEq, Eq, Structural)]
pub enum MachineCycle {
    InstructionFetch,
    MemoryRead,
    MemoryWrite,
    StackRead,
    StackWrite,
    InputRead,
    OutputWrite,
    InterruptAck,
    HaltAck,
    InterruptAckWhileHalt,
    Internal,
}

/// The status byte that the 8080 places on the data bus during T1 of a
/// machine cycle of the given class (`None` for internal cycles).
pub open spec fn spec_status_word(cycle: MachineCycle) -> Option<u8> {
    match cycle {
        MachineCycle::InstructionFetch => Some(0xA2u8),
        MachineCycle::MemoryRead => Some(0x82u8),
        MachineCycle::MemoryWrite => Some(0x00u8),
        MachineCycle::StackRead => Some(0x86u8),
        MachineCycle::StackWrite => Some(0x04u8),
        MachineCycle::InputRead => Some(0x42u8),
        MachineCycle::OutputWrite => Some(0x10u8),
        MachineCycle::InterruptAck => Some(0x23u8),
        MachineCycle::HaltAck => Some(0x8Au8),
        MachineCycle::InterruptAckWhileHalt => Some(0x2Bu8),
        MachineCycle::Internal => None,
    }
}

impl MachineCycle {
    pub fn status_word(self) -> (r: Option<u8>)
        ensures
            r == spec_status_word(self),
    {
        match self {
            MachineCycle::InstructionFetch => Some(0xA2),
            MachineCycle::MemoryRead => Some(0x82),
            MachineCycle::MemoryWrite => Some(0x00),
            MachineCycle::StackRead => Some(0x86),
            MachineCycle::StackWrite => Some(0x04),
            MachineCycle::InputRead => Some(0x42),
            MachineCycle::OutputWrite => Some(0x10),
            MachineCycle::InterruptAck => Some(0x23),
            MachineCycle::HaltAck => Some(0x8A),
            MachineCycle::InterruptAckWhileHalt => Some(0x2B),
            MachineCycle::Internal => None,
        }
    }
}

/// One of the four digital clock edges inside an Intel 8080 T-state.
#[derive(Clone, Copy, Debug, PartialEq, Eq, Structural)]
pub enum ClockEdge {
    Phi1Rising,
    Phi1Falling,
    Phi2Rising,
    Phi2Falling,
}

/// Clock-pin levels (PHI1, PHI2) immediately after an edge.
pub open spec fn spec_clock_levels_after(edge: ClockEdge) -> (bool, bool) {
    match edge {
        ClockEdge::Phi1Rising => (true, false),
        ClockEdge::Phi1Falling => (false, false),
        ClockEdge::Phi2Rising => (false, true),
        ClockEdge::Phi2Falling => (false, false),
    }
}

impl ClockEdge {
    /// The four edges of one T-state in their physical order.
    pub fn all() -> (r: [ClockEdge; 4])
        ensures
            r@ == seq![
                ClockEdge::Phi1Rising,
                ClockEdge::Phi1Falling,
                ClockEdge::Phi2Rising,
                ClockEdge::Phi2Falling,
            ],
    {
        let r = [
            ClockEdge::Phi1Rising,
            ClockEdge::Phi1Falling,
            ClockEdge::Phi2Rising,
            ClockEdge::Phi2Falling,
        ];
        assert(r@ =~= seq![
            ClockEdge::Phi1Rising,
            ClockEdge::Phi1Falling,
            ClockEdge::Phi2Rising,
            ClockEdge::Phi2Falling,
        ]);
        r
    }

    /// Clock-pin levels immediately after this edge. The phases never overlap.
    pub fn clock_levels_after(self) -> (r: (bool, bool))
        ensures
            r == spec_clock_levels_after(self),
            !(r.0 && r.1),
    {
        match self {
            ClockEdge::Phi1Rising => (true, false),
            ClockEdge::Phi1Falling => (false, false),
            ClockEdge::Phi2Rising => (false, true),
            ClockEdge::Phi2Falling => (false, false),
        }
    }
}

/// One complete 8080 T-state.
#[derive(Clone, Copy, Debug, PartialEq, Eq, Structural)]
pub enum TState {
    T1,
    T2,
    Tw,
    T3,
    T4,
    T5,
    /// Indefinite halt dwell state entered after the HLT acknowledge cycle.
    Thalt,
    /// Indefinite bus-release dwell while HOLD remains asserted.
    Thold,
}

} // verus!
