//! The Altair 8800 front-panel control hardware: sixteen sense/address
//! switches and the address latch mirror used by reset and presentation.

use vstd::prelude::*;

verus! {

pub struct FrontPanelController {
    switches: u16,
    address_latch: u16,
}

/// (switches, address latch)
impl View for FrontPanelController {
    type V = (u16, u16);

    closed spec fn view(&self) -> (u16, u16) {
        (self.switches, self.address_latch)
    }
}

impl FrontPanelController {
    pub fn new() -> (r: Self)
        ensures
            r@ == (0u16, 0u16),
    {
        FrontPanelController { switches: 0, address_latch: 0 }
    }

    /// IN FFh reads the upper eight sense switches.
    pub fn input(&self) -> (r: u8)
        ensures
            r == self@.0 / 256,
    {
        let switches = self.switches;
        assert((switches >> 8u16) == switches / 256) by (bit_vector);
        (switches >> 8) as u8
    }

    pub fn switches(&self) -> (r: u16)
        ensures
            r == self@.0,
    {
        self.switches
    }

    /// Flips one of the sixteen switches; other bit numbers name no switch.
    pub fn toggle_switch(&mut self, bit: usize)
        ensures
            bit < 16 ==> final(self)@ == (old(self)@.0 ^ (1u16 << bit), old(self)@.1),
            bit >= 16 ==> final(self)@ == old(self)@,
    {
        if bit < 16 {
            self.switches = self.switches ^ (1u16 << bit);
        }
    }

    pub fn reset_address(&mut self) -> (r: u16)
        ensures
            r == 0,
            final(self)@ == (old(self)@.0, 0u16),
    {
        self.address_latch = 0;
        self.address_latch
    }

    pub fn set_address_latch(&mut self, address: u16)
        ensures
            final(self)@ == (old(self)@.0, address),
    {
        self.address_latch = address;
    }

    pub fn address_latch(&self) -> (r: u16)
        ensures
            r == self@.1,
    {
        self.address_latch
    }
}

impl Default for FrontPanelController {
    fn default() -> (r: Self)
        ensures
            r@ == (0u16, 0u16),
    {
        FrontPanelController::new()
    }
}

/// Toggling a switch twice leaves the panel as it was, and toggling one
/// switch changes no other.
pub proof fn lemma_toggle_is_an_involution(switches: u16, bit: u16, other: u16)
    requires
        bit < 16,
        other < 16,
        other != bit,
    ensures
        (switches ^ (1u16 << bit)) ^ (1u16 << bit) == switches,
        ((switches ^ (1u16 << bit)) >> other) & 1 == (switches >> other) & 1,
{
    assert((switches ^ (1u16 << bit)) ^ (1u16 << bit) == switches) by (bit_vector);
    assert(bit < 16 && other < 16 && other != bit ==> ((switches ^ (1u16 << bit)) >> other) & 1 == (switches
        >> other) & 1) by (bit_vector);
}

} // verus!
