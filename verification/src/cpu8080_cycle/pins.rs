use vstd::prelude::*;

verus! {

/// Inputs presented to the 8080 package during one T-state.
#[derive(Clone, Copy, Debug, PartialEq, Eq, Structural)]
pub struct Cpu8080Inputs {
    /// Value presented to the 8080 data bus while DBIN is active.
    pub data_in: u8,
    /// READY sampled by the processor. Low inserts TW states.
    pub ready: bool,
    /// Maskable interrupt request input.
    pub interrupt: bool,
    /// DMA/bus-hold request input.
    pub hold: bool,
    /// Asynchronous RESET input.
    pub reset: bool,
}

impl Default for Cpu8080Inputs {
    fn default() -> (r: Self)
        ensures
            r == (Cpu8080Inputs { data_in: 0, ready: true, interrupt: false, hold: false, reset: false }),
    {
        Cpu8080Inputs { data_in: 0, ready: true, interrupt: false, hold: false, reset: false }
    }
}

/// Externally visible Intel 8080 signals at T-state granularity.
#[derive(Clone, Copy, Debug, PartialEq, Eq, Structural)]
pub struct Cpu8080Pins {
    pub address: Option<u16>,
    pub data_out: Option<u8>,
    pub sync: bool,
    pub dbin: bool,
    /// Physical /WR output. `false` means write asserted.
    pub wr_n: bool,
    pub inte: bool,
    pub wait: bool,
    pub hlda: bool,
}

/// The pin state after power-up or RESET: buses floating, /WR inactive.
pub open spec fn spec_idle_pins() -> Cpu8080Pins {
    Cpu8080Pins {
        address: None,
        data_out: None,
        sync: false,
        dbin: false,
        wr_n: true,
        inte: false,
        wait: false,
        hlda: false,
    }
}

impl Default for Cpu8080Pins {
    fn default() -> (r: Self)
        ensures
            r == spec_idle_pins(),
    {
        Cpu8080Pins {
            address: None,
            data_out: None,
            sync: false,
            dbin: false,
            wr_n: true,
            inte: false,
            wait: false,
            hlda: false,
        }
    }
}

} // verus!
