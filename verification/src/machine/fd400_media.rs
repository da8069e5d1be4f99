//! Removable 8-inch hard-sectored physical media for the Pertec FD-400.
//!
//! A physical-byte surface below the drive electronics: 77 tracks × 32 hard
//! sectors × 137 physical bytes per sector, stored track-major then
//! sector-major. No host pathname or image metadata is retained.

use vstd::prelude::*;

verus! {

pub const HARD_SECTORED_TRACKS: u8 = 77;
pub const HARD_SECTORS_PER_TRACK: u8 = 32;
pub const PHYSICAL_BYTES_PER_SECTOR: usize = 137;
pub const PHYSICAL_MEDIA_BYTES: usize = 337_568;

#[derive(Clone, Copy, Debug, PartialEq, Eq, Structural)]
pub struct HardSectored8InchGeometry {
    pub tracks: u8,
    pub sectors_per_track: u8,
    pub physical_bytes_per_sector: usize,
}

impl HardSectored8InchGeometry {
    /// The MITS FD-400 geometry.
    pub fn mits_fd400() -> (r: Self)
        ensures
            r.tracks == HARD_SECTORED_TRACKS,
            r.sectors_per_track == HARD_SECTORS_PER_TRACK,
            r.physical_bytes_per_sector == PHYSICAL_BYTES_PER_SECTOR,
    {
        HardSectored8InchGeometry {
            tracks: HARD_SECTORED_TRACKS,
            sectors_per_track: HARD_SECTORS_PER_TRACK,
            physical_bytes_per_sector: PHYSICAL_BYTES_PER_SECTOR,
        }
    }

    pub fn total_bytes(self) -> (r: usize)
        requires
            self.tracks as int * self.sectors_per_track as int * self.physical_bytes_per_sector as int
                <= usize::MAX,
        ensures
            r == self.tracks as int * self.sectors_per_track as int * self.physical_bytes_per_sector as int,
    {
        assert(self.tracks as int * self.sectors_per_track as int <= 255 * 255) by (nonlinear_arith)
            requires
                self.tracks <= 255,
                self.sectors_per_track <= 255,
        ;
        self.tracks as usize * self.sectors_per_track as usize * self.physical_bytes_per_sector
    }
}

#[derive(Clone, Copy, Debug, PartialEq, Eq, Structural)]
pub struct HardSectoredMediaSizeError {
    pub expected: usize,
    pub actual: usize,
}

#[derive(Clone, Copy, Debug, PartialEq, Eq, Structural)]
pub enum HardSectoredMediaWriteError {
    WriteProtected,
    InvalidPhysicalAddress { track: u8, sector: u8, offset: usize },
}

#[derive(Debug, PartialEq, Eq)]
pub struct HardSectored8InchMedia {
    bytes: Vec<u8>,
    write_protected: bool,
}

pub struct MediaView {
    pub bytes: Seq<u8>,
    pub write_protected: bool,
}

impl View for HardSectored8InchMedia {
    type V = MediaView;

    closed spec fn view(&self) -> MediaView {
        MediaView { bytes: self.bytes@, write_protected: self.write_protected }
    }
}

/// Offset of the first physical byte of a sector, if the address exists.
pub open spec fn spec_sector_offset(track: u8, sector: u8) -> Option<int> {
    if track >= HARD_SECTORED_TRACKS || sector >= HARD_SECTORS_PER_TRACK {
        None
    } else {
        Some((track as int * HARD_SECTORS_PER_TRACK as int + sector as int) * PHYSICAL_BYTES_PER_SECTOR as int)
    }
}

/// The physical byte at (track, sector, offset), if that address exists.
pub open spec fn spec_physical_byte(bytes: Seq<u8>, track: u8, sector: u8, offset: int) -> Option<u8> {
    match spec_sector_offset(track, sector) {
        Some(start) => if 0 <= offset < PHYSICAL_BYTES_PER_SECTOR && start + offset < bytes.len() {
            Some(bytes[start + offset])
        } else {
            None
        },
        None => None,
    }
}

proof fn lemma_sector_in_media(track: u8, sector: u8)
    requires
        track < HARD_SECTORED_TRACKS,
        sector < HARD_SECTORS_PER_TRACK,
    ensures
        (track as int * 32 + sector as int) * 137 + 137 <= PHYSICAL_MEDIA_BYTES,
{
    assert((track as int * 32 + sector as int) * 137 + 137 <= 337_568) by (nonlinear_arith)
        requires
            track < 77,
            sector < 32,
    ;
}

impl HardSectored8InchMedia {
    /// Wraps raw physical bytes; anything but the exact geometry size is
    /// refused.
    pub fn from_physical_bytes(bytes: Vec<u8>, write_protected: bool) -> (r: Result<
        Self,
        HardSectoredMediaSizeError,
    >)
        ensures
            bytes@.len() == PHYSICAL_MEDIA_BYTES ==> r is Ok && r.unwrap()@.bytes == bytes@
                && r.unwrap()@.write_protected == write_protected,
            bytes@.len() != PHYSICAL_MEDIA_BYTES ==> r == Err::<Self, HardSectoredMediaSizeError>(
                HardSectoredMediaSizeError { expected: PHYSICAL_MEDIA_BYTES, actual: bytes@.len() as usize },
            ),
    {
        if bytes.len() != PHYSICAL_MEDIA_BYTES {
            return Err(
                HardSectoredMediaSizeError { expected: PHYSICAL_MEDIA_BYTES, actual: bytes.len() },
            );
        }
        Ok(HardSectored8InchMedia { bytes, write_protected })
    }

    pub closed spec fn wf(&self) -> bool {
        self.bytes@.len() == PHYSICAL_MEDIA_BYTES
    }

    pub fn geometry(&self) -> (r: HardSectored8InchGeometry)
        ensures
            r.tracks == HARD_SECTORED_TRACKS,
            r.sectors_per_track == HARD_SECTORS_PER_TRACK,
            r.physical_bytes_per_sector == PHYSICAL_BYTES_PER_SECTOR,
    {
        HardSectored8InchGeometry::mits_fd400()
    }

    pub fn write_protected(&self) -> (r: bool)
        ensures
            r == self@.write_protected,
    {
        self.write_protected
    }

    /// All physical bytes of the medium.
    pub fn physical_bytes(&self) -> (r: &[u8])
        ensures
            r@ == self@.bytes,
    {
        self.bytes.as_slice()
    }

    /// The 137 physical bytes of one sector, if the sector exists.
    pub fn physical_sector(&self, track: u8, sector: u8) -> (r: Option<&[u8]>)
        ensures
            match spec_sector_offset(track, sector) {
                Some(start) => if start + PHYSICAL_BYTES_PER_SECTOR <= self@.bytes.len() {
                    r is Some && r.unwrap()@ == self@.bytes.subrange(start, start + PHYSICAL_BYTES_PER_SECTOR)
                } else {
                    r is None
                },
                None => r is None,
            },
    {
        let start = match Self::physical_sector_offset(track, sector) {
            Some(s) => s,
            None => return None,
        };
        proof {
            lemma_sector_in_media(track, sector);
        }
        if start + PHYSICAL_BYTES_PER_SECTOR <= self.bytes.len() {
            Some(vstd::slice::slice_subrange(self.bytes.as_slice(), start, start + PHYSICAL_BYTES_PER_SECTOR))
        } else {
            None
        }
    }

    pub fn physical_byte(&self, track: u8, sector: u8, offset: usize) -> (r: Option<u8>)
        ensures
            r == spec_physical_byte(self@.bytes, track, sector, offset as int),
    {
        let start = match Self::physical_sector_offset(track, sector) {
            Some(s) => s,
            None => return None,
        };
        proof {
            lemma_sector_in_media(track, sector);
        }
        if offset < PHYSICAL_BYTES_PER_SECTOR && start + offset < self.bytes.len() {
            Some(self.bytes[start + offset])
        } else {
            None
        }
    }

    /// Mutates one physical byte below the drive electronics.
    pub fn write_physical_byte(&mut self, track: u8, sector: u8, offset: usize, value: u8) -> (r:
        Result<(), HardSectoredMediaWriteError>)
        ensures
            old(self)@.write_protected ==> r == Err::<(), HardSectoredMediaWriteError>(
                HardSectoredMediaWriteError::WriteProtected,
            ) && final(self)@ == old(self)@,
            !old(self)@.write_protected && spec_physical_byte(old(self)@.bytes, track, sector, offset as int)
                is None ==> r == Err::<(), HardSectoredMediaWriteError>(
                HardSectoredMediaWriteError::InvalidPhysicalAddress { track, sector, offset },
            ) && final(self)@ == old(self)@,
            !old(self)@.write_protected && spec_physical_byte(old(self)@.bytes, track, sector, offset as int)
                is Some ==> r is Ok && final(self)@.write_protected == old(self)@.write_protected
                && final(self)@.bytes == old(self)@.bytes.update(
                spec_sector_offset(track, sector).unwrap() + offset,
                value,
            ),
    {
        if self.write_protected {
            return Err(HardSectoredMediaWriteError::WriteProtected);
        }
        let start = match Self::physical_sector_offset(track, sector) {
            Some(s) => s,
            None => return Err(
                HardSectoredMediaWriteError::InvalidPhysicalAddress { track, sector, offset },
            ),
        };
        proof {
            lemma_sector_in_media(track, sector);
        }
        if offset >= PHYSICAL_BYTES_PER_SECTOR || start + offset >= self.bytes.len() {
            return Err(HardSectoredMediaWriteError::InvalidPhysicalAddress { track, sector, offset });
        }
        self.bytes.set(start + offset, value);
        Ok(())
    }

    pub fn into_physical_bytes(self) -> (r: Vec<u8>)
        ensures
            r@ == self@.bytes,
    {
        self.bytes
    }

    fn physical_sector_offset(track: u8, sector: u8) -> (r: Option<usize>)
        ensures
            match spec_sector_offset(track, sector) {
                Some(s) => r == Some(s as usize),
                None => r is None,
            },
    {
        if track >= HARD_SECTORED_TRACKS || sector >= HARD_SECTORS_PER_TRACK {
            return None;
        }
        proof {
            lemma_sector_in_media(track, sector);
        }
        let logical_sector = track as usize * HARD_SECTORS_PER_TRACK as usize + sector as usize;
        Some(logical_sector * PHYSICAL_BYTES_PER_SECTOR)
    }
}

/// Distinct valid physical addresses name distinct bytes: writing one never
/// changes another.
pub proof fn lemma_physical_addresses_are_disjoint(
    t1: u8,
    s1: u8,
    o1: int,
    t2: u8,
    s2: u8,
    o2: int,
)
    requires
        spec_sector_offset(t1, s1) is Some,
        spec_sector_offset(t2, s2) is Some,
        0 <= o1 < PHYSICAL_BYTES_PER_SECTOR,
        0 <= o2 < PHYSICAL_BYTES_PER_SECTOR,
        (t1, s1, o1) != (t2, s2, o2),
    ensures
        spec_sector_offset(t1, s1).unwrap() + o1 != spec_sector_offset(t2, s2).unwrap() + o2,
{
    let a = t1 as int * 32 + s1 as int;
    let b = t2 as int * 32 + s2 as int;
    if a == b {
        assert(t1 == t2 && s1 == s2) by (nonlinear_arith)
            requires
                t1 as int * 32 + s1 as int == t2 as int * 32 + s2 as int,
                s1 < 32,
                s2 < 32,
        ;
    } else {
        assert(a * 137 + o1 != b * 137 + o2) by (nonlinear_arith)
            requires
                a != b,
                0 <= o1 < 137,
                0 <= o2 < 137,
        ;
    }
}

} // verus!
