//! MITS 88-DCDD Board #1 read-data latch and NRDA electronics.
//!
//! The FD-400 supplies time-stamped physical byte events. A new byte
//! overwrites the latch whether or not the 8080 consumed the previous one,
//! NRDA stays asserted until IN 0Ah, and reading data does not stop the
//! physical byte stream.

use vstd::prelude::*;

verus! {

/// The board's state as mathematical values.
pub struct Board1ReadModel {
    pub data_latch: u8,
    /// Generation of the last physical byte event taken into the latch.
    pub generation: Option<u64>,
    pub nrda: bool,
}

#[derive(Debug)]
pub struct Board1ReadElectronics {
    data_latch: u8,
    generation: Option<u64>,
    nrda: bool,
}

impl View for Board1ReadElectronics {
    type V = Board1ReadModel;

    closed spec fn view(&self) -> Board1ReadModel {
        Board1ReadModel { data_latch: self.data_latch, generation: self.generation, nrda: self.nrda }
    }
}

/// A byte event the latch has not seen before overwrites it and raises NRDA;
/// no event, or the event already taken, leaves the board as it was.
pub open spec fn spec_observe_event(m: Board1ReadModel, event: Option<(u64, u8)>) -> Board1ReadModel {
    match event {
        None => m,
        Some(e) => if m.generation == Some(e.0) {
            m
        } else {
            Board1ReadModel { data_latch: e.1, generation: Some(e.0), nrda: true }
        },
    }
}

impl Board1ReadElectronics {
    pub fn new(power_up_latch: u8) -> (r: Self)
        ensures
            r@ == (Board1ReadModel { data_latch: power_up_latch, generation: None, nrda: false }),
    {
        Board1ReadElectronics { data_latch: power_up_latch, generation: None, nrda: false }
    }

    /// Catches up to the newest physical byte event.
    pub fn observe_event(&mut self, event: Option<(u64, u8)>)
        ensures
            final(self)@ == spec_observe_event(old(self)@, event),
    {
        let (generation, byte) = match event {
            Some(e) => e,
            None => return ,
        };
        if self.generation == Some(generation) {
            return ;
        }
        self.generation = Some(generation);
        self.data_latch = byte;
        self.nrda = true;
    }

    pub fn nrda(&self) -> (r: bool)
        ensures
            r == self@.nrda,
    {
        self.nrda
    }

    pub fn data_latch(&self) -> (r: u8)
        ensures
            r == self@.data_latch,
    {
        self.data_latch
    }

    /// IN 0Ah: returns the retained latch and resets NRDA.
    pub fn consume_data(&mut self) -> (r: u8)
        ensures
            r == old(self)@.data_latch,
            final(self)@ == (Board1ReadModel { nrda: false, ..old(self)@ }),
    {
        self.nrda = false;
        self.data_latch
    }
}

/// The same physical byte cannot arrive twice: once the CPU has consumed a
/// byte, observing that event again leaves NRDA low and the latch unchanged.
pub proof fn lemma_consumed_event_does_not_rearm(m: Board1ReadModel, generation: u64, byte: u8)
    ensures
        ({
            let taken = spec_observe_event(m, Some((generation, byte)));
            let consumed = Board1ReadModel { nrda: false, ..taken };
            spec_observe_event(consumed, Some((generation, byte))) == consumed
        }),
{
}

/// A new event always wins: the latch holds the newest byte and NRDA is
/// raised, whatever was unread before.
pub proof fn lemma_newest_event_overwrites(m: Board1ReadModel, generation: u64, byte: u8)
    requires
        m.generation != Some(generation),
    ensures
        spec_observe_event(m, Some((generation, byte))).data_latch == byte,
        spec_observe_event(m, Some((generation, byte))).nrda,
{
}

} // verus!
