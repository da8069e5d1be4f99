use vstd::prelude::*;

verus! {

/// Programmer-visible Intel 8080 register state.
#[derive(Clone, Copy, Debug, PartialEq, Eq, Structural)]
pub struct Registers {
    pub a: u8,
    pub b: u8,
    pub c: u8,
    pub d: u8,
    pub e: u8,
    pub h: u8,
    pub l: u8,
    pub f: u8,
    pub sp: u16,
    pub pc: u16,
}

/// Power-on register contents used by a fresh core: everything zero except the
/// flag register's always-one bit 1.
pub open spec fn spec_default_registers() -> Registers {
    Registers { a: 0, b: 0, c: 0, d: 0, e: 0, h: 0, l: 0, f: 0x02, sp: 0, pc: 0 }
}

impl Default for Registers {
    fn default() -> (r: Self)
        ensures
            r == spec_default_registers(),
    {
        Registers { a: 0, b: 0, c: 0, d: 0, e: 0, h: 0, l: 0, f: 0x02, sp: 0, pc: 0 }
    }
}

} // verus!
