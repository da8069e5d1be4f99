//! MITS 88-DCDD Board #2 write-sequencer timing.
//!
//! Board #2 owns WRITE ENABLE, ENWD generation and the retained write-data
//! latch. The drive and medium only receive the accepted physical-byte
//! effects.

use vstd::prelude::*;
use crate::machine::fd400::{Fd400Time, TIME_UNITS_PER_MICROSECOND, sat_add, sat_mul, sat_sub};

verus! {

pub const TRIM_ERASE_START_DELAY_US: u64 = 200;
pub const FIRST_ENWD_FROM_SECTOR_START_US: u64 = 280;
pub const WRITE_BYTE_INTERVAL_US: u64 = 32;
pub const TRIM_ERASE_TAIL_US: u64 = 475;
pub const DATA_BYTES_PER_SECTOR: u64 = 137;
/// The write opportunity after the last data byte: the fill byte.
pub const FILL_BYTE_GENERATION: u64 = 137;

#[derive(Clone, Copy, Debug, PartialEq, Eq, Structural)]
pub struct WriteByteAcceptance {
    /// Zero-based 32 us write opportunity; 0 through 136 are the physical
    /// data bytes, 137 is the fill byte.
    pub generation: u64,
    pub value: u8,
    pub physical_data_offset: Option<usize>,
    pub fill_to_sector_end: bool,
}

#[derive(Clone, Copy, Debug, PartialEq, Eq, Structural)]
struct WriteWindow {
    write_enable_at: Fd400Time,
    trim_erase_on_at: Fd400Time,
    first_enwd_at: Fd400Time,
    sector_end_at: Fd400Time,
    trim_erase_off_at: Fd400Time,
}

/// The times of one write, in units.
pub struct WriteWindowModel {
    pub write_enable_at: u64,
    pub trim_erase_on_at: u64,
    pub first_enwd_at: u64,
    pub sector_end_at: u64,
    pub trim_erase_off_at: u64,
}

/// The board's state as mathematical values.
pub struct Board2WriteModel {
    pub window: Option<WriteWindowModel>,
    pub consumed_generation: Option<u64>,
    pub fill_byte_latched: bool,
}

#[derive(Debug)]
pub struct Board2WriteElectronics {
    window: Option<WriteWindow>,
    consumed_generation: Option<u64>,
    fill_byte_latched: bool,
}

impl View for Board2WriteElectronics {
    type V = Board2WriteModel;

    closed spec fn view(&self) -> Board2WriteModel {
        Board2WriteModel {
            window: match self.window {
                Some(w) => Some(
                    WriteWindowModel {
                        write_enable_at: w.write_enable_at.0,
                        trim_erase_on_at: w.trim_erase_on_at.0,
                        first_enwd_at: w.first_enwd_at.0,
                        sector_end_at: w.sector_end_at.0,
                        trim_erase_off_at: w.trim_erase_off_at.0,
                    },
                ),
                None => None,
            },
            consumed_generation: self.consumed_generation,
            fill_byte_latched: self.fill_byte_latched,
        }
    }
}

pub open spec fn spec_us(us: u64) -> u64 {
    sat_mul(us, TIME_UNITS_PER_MICROSECOND)
}

/// Trim erase counts from WRITE ENABLE; ENWD counts from the start of the
/// selected sector; trim erase outlasts the sector by 475 us.
pub open spec fn spec_write_window(write_enable_at: u64, sector_start_at: u64, sector_end_at: u64) -> WriteWindowModel {
    WriteWindowModel {
        write_enable_at,
        trim_erase_on_at: sat_add(write_enable_at, spec_us(TRIM_ERASE_START_DELAY_US) as int),
        first_enwd_at: sat_add(sector_start_at, spec_us(FIRST_ENWD_FROM_SECTOR_START_US) as int),
        sector_end_at,
        trim_erase_off_at: sat_add(sector_end_at, spec_us(TRIM_ERASE_TAIL_US) as int),
    }
}

/// The 32 us write opportunity in force at `now`, if ENWD can be raised.
pub open spec fn spec_current_generation(m: Board2WriteModel, now: u64) -> Option<u64> {
    match m.window {
        None => None,
        Some(w) => if now < w.first_enwd_at || now >= w.sector_end_at || m.fill_byte_latched {
            None
        } else {
            let g = sat_sub(now, w.first_enwd_at) / spec_us(WRITE_BYTE_INTERVAL_US);
            Some(
                if g >= FILL_BYTE_GENERATION {
                    FILL_BYTE_GENERATION
                } else {
                    g as u64
                },
            )
        },
    }
}

pub open spec fn spec_enwd(m: Board2WriteModel, now: u64) -> bool {
    match spec_current_generation(m, now) {
        Some(g) => m.consumed_generation != Some(g),
        None => false,
    }
}

/// OUT 0Ah: accepted only while ENWD is raised, for the current opportunity.
pub open spec fn spec_consume(m: Board2WriteModel, now: u64, value: u8) -> (
    Board2WriteModel,
    Option<WriteByteAcceptance>,
) {
    match spec_current_generation(m, now) {
        None => (m, None),
        Some(g) => if m.consumed_generation == Some(g) {
            (m, None)
        } else {
            (
                Board2WriteModel {
                    consumed_generation: Some(g),
                    fill_byte_latched: m.fill_byte_latched || g == FILL_BYTE_GENERATION,
                    ..m
                },
                Some(
                    WriteByteAcceptance {
                        generation: g,
                        value,
                        physical_data_offset: if g < DATA_BYTES_PER_SECTOR {
                            Some(g as usize)
                        } else {
                            None
                        },
                        fill_to_sector_end: g == FILL_BYTE_GENERATION,
                    },
                ),
            )
        },
    }
}

impl Board2WriteElectronics {
    pub fn new() -> (r: Self)
        ensures
            r@.window is None,
            r@.consumed_generation is None,
            !r@.fill_byte_latched,
    {
        Board2WriteElectronics { window: None, consumed_generation: None, fill_byte_latched: false }
    }

    /// WRITE ENABLE, asserted after software observes Sector True.
    pub fn begin(&mut self, write_enable_at: Fd400Time, sector_start_at: Fd400Time, sector_end_at: Fd400Time)
        ensures
            final(self)@ == (Board2WriteModel {
                window: Some(spec_write_window(write_enable_at.0, sector_start_at.0, sector_end_at.0)),
                consumed_generation: None,
                fill_byte_latched: false,
            }),
    {
        self.window = Some(
            WriteWindow {
                write_enable_at,
                trim_erase_on_at: write_enable_at.saturating_add(
                    Fd400Time::from_microseconds(TRIM_ERASE_START_DELAY_US).units(),
                ),
                first_enwd_at: sector_start_at.saturating_add(
                    Fd400Time::from_microseconds(FIRST_ENWD_FROM_SECTOR_START_US).units(),
                ),
                sector_end_at,
                trim_erase_off_at: sector_end_at.saturating_add(
                    Fd400Time::from_microseconds(TRIM_ERASE_TAIL_US).units(),
                ),
            },
        );
        self.consumed_generation = None;
        self.fill_byte_latched = false;
    }

    pub fn write_active(&self, now: Fd400Time) -> (r: bool)
        ensures
            r == match self@.window {
                Some(w) => w.write_enable_at <= now.0 < w.sector_end_at,
                None => false,
            },
    {
        match self.window {
            Some(w) => now.0 >= w.write_enable_at.0 && now.0 < w.sector_end_at.0,
            None => false,
        }
    }

    pub fn trim_erase_active(&self, now: Fd400Time) -> (r: bool)
        ensures
            r == match self@.window {
                Some(w) => w.trim_erase_on_at <= now.0 < w.trim_erase_off_at,
                None => false,
            },
    {
        match self.window {
            Some(w) => now.0 >= w.trim_erase_on_at.0 && now.0 < w.trim_erase_off_at.0,
            None => false,
        }
    }

    /// Move Head is inhibited from WRITE ENABLE until trim erase completes.
    pub fn move_head_inhibited(&self, now: Fd400Time) -> (r: bool)
        ensures
            r == match self@.window {
                Some(w) => w.write_enable_at <= now.0 < w.trim_erase_off_at,
                None => false,
            },
    {
        match self.window {
            Some(w) => now.0 >= w.write_enable_at.0 && now.0 < w.trim_erase_off_at.0,
            None => false,
        }
    }

    fn current_generation(&self, now: Fd400Time) -> (r: Option<u64>)
        ensures
            r == spec_current_generation(self@, now.0),
    {
        let window = match self.window {
            Some(w) => w,
            None => return None,
        };
        if now.0 < window.first_enwd_at.0 || now.0 >= window.sector_end_at.0 || self.fill_byte_latched {
            return None;
        }
        let elapsed = now.saturating_duration_since(window.first_enwd_at);
        let interval = Fd400Time::from_microseconds(WRITE_BYTE_INTERVAL_US).units();
        let g = elapsed / interval;
        Some(
            if g >= FILL_BYTE_GENERATION {
                FILL_BYTE_GENERATION
            } else {
                g
            },
        )
    }

    /// ENWD as the positive physical condition: Board #2 requests a new
    /// output byte.
    pub fn enwd(&self, now: Fd400Time) -> (r: bool)
        ensures
            r == spec_enwd(self@, now.0),
    {
        match self.current_generation(now) {
            Some(generation) => self.consumed_generation != Some(generation),
            None => false,
        }
    }

    /// OUT 0Ah: resets ENWD for the current opportunity and takes the byte.
    /// After the fill byte the circuit repeats it to the end of the sector
    /// and raises ENWD no more.
    pub fn consume_data(&mut self, now: Fd400Time, value: u8) -> (r: Option<WriteByteAcceptance>)
        ensures
            (final(self)@, r) == spec_consume(old(self)@, now.0, value),
    {
        let generation = match self.current_generation(now) {
            Some(g) => g,
            None => return None,
        };
        if self.consumed_generation == Some(generation) {
            return None;
        }
        self.consumed_generation = Some(generation);
        let fill_to_sector_end = generation == FILL_BYTE_GENERATION;
        if fill_to_sector_end {
            self.fill_byte_latched = true;
        }
        Some(
            WriteByteAcceptance {
                generation,
                value,
                physical_data_offset: if generation < DATA_BYTES_PER_SECTOR {
                    Some(generation as usize)
                } else {
                    None
                },
                fill_to_sector_end,
            },
        )
    }
}

/// A byte is taken exactly when ENWD is raised, and taking it lowers ENWD
/// until the next 32 us opportunity.
pub proof fn lemma_output_accepted_only_on_enwd(m: Board2WriteModel, now: u64, value: u8)
    ensures
        spec_consume(m, now, value).1 is Some <==> spec_enwd(m, now),
        !spec_enwd(spec_consume(m, now, value).0, now),
{
}

/// Once the fill byte has been taken, ENWD never rises again in this write.
pub proof fn lemma_fill_byte_ends_enwd(m: Board2WriteModel, now: u64, value: u8, later: u64)
    requires
        spec_consume(m, now, value).1 matches Some(a) && a.fill_to_sector_end,
    ensures
        !spec_enwd(spec_consume(m, now, value).0, later),
{
}

/// Every accepted byte lands on one of the 137 physical data offsets, except
/// the fill byte, which lands on none.
pub proof fn lemma_accepted_offsets_are_physical(m: Board2WriteModel, now: u64, value: u8)
    ensures
        spec_consume(m, now, value).1 matches Some(a) ==> (a.generation <= FILL_BYTE_GENERATION
            && (a.physical_data_offset matches Some(o) ==> o < DATA_BYTES_PER_SECTOR && o == a.generation)
            && (a.physical_data_offset is None <==> a.fill_to_sector_end)),
{
}

} // verus!
