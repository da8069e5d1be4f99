//! Programmer-visible processor state shared by the debugger views.

use vstd::prelude::*;

verus! {

/// Snapshot of the Intel 8080 programmer-visible registers.
#[derive(Clone, Copy, Debug, PartialEq, Eq, Structural)]
pub struct Intel8080State {
    pub a: u8,
    pub b: u8,
    pub c: u8,
    pub d: u8,
    pub e: u8,
    pub h: u8,
    pub l: u8,
    pub flags: u8,
    pub sp: u16,
    pub pc: u16,
}

/// The 16-bit HL register pair.
pub open spec fn spec_hl(s: Intel8080State) -> u16 {
    (s.h as int * 256 + s.l as int) as u16
}

impl Intel8080State {
    pub fn hl(&self) -> (r: u16)
        ensures
            r == spec_hl(*self),
    {
        self.h as u16 * 256 + self.l as u16
    }
}

impl Default for Intel8080State {
    fn default() -> (r: Self)
        ensures
            r == (Intel8080State { a: 0, b: 0, c: 0, d: 0, e: 0, h: 0, l: 0, flags: 0, sp: 0, pc: 0 }),
    {
        Intel8080State { a: 0, b: 0, c: 0, d: 0, e: 0, h: 0, l: 0, flags: 0, sp: 0, pc: 0 }
    }
}

} // verus!
