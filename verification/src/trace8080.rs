//! Per-instruction data-memory effects reported by the CPU cores.

use vstd::prelude::*;

verus! {

/// One memory access performed by a completed guest instruction.
#[derive(Clone, Copy, Debug, PartialEq, Eq, Structural)]
pub enum InstructionEffect8080 {
    MemoryRead { address: u16, value: u8 },
    MemoryWrite { address: u16, value: u8 },
    StackRead { address: u16, value: u8 },
    StackWrite { address: u16, value: u8 },
}

} // verus!
